use vstd::prelude::*;

pub mod actor;
pub mod authz;
pub mod bindings;
pub mod bus;
pub mod capability;
pub mod claims;
pub mod codec;
pub mod controlplane;
pub mod dispatch;
pub mod entity;
pub mod errors;
pub mod extras;
pub mod host;
pub mod inthost;
pub mod laws;
pub mod manifest;
pub mod messagepack;
pub mod messages;
pub mod middleware;
pub mod plugins;
pub mod prometheus_middleware;
pub mod random;
pub mod registry;
pub mod router;
pub mod runtime;
pub mod spawns;
pub mod table;
pub mod text;

verus! {

}
