//! What holds of the library's functions, whatever they are given: stated of their arguments
//! and their results alone.

pub mod authority;
pub mod bonds;
pub mod calls;
pub mod control;
pub mod extras;
pub mod failures;
pub mod forms;
pub mod hosts;
pub mod lattice;
pub mod manifests;
pub mod metrics;
pub mod modules;
pub mod pairs;
pub mod subjects;
pub mod supplies;
pub mod texts;
pub mod threads;
