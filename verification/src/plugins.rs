//! The native capability providers that are loaded in a host.
use vstd::prelude::*;

use crate::authz::failure_of;
use crate::bindings::RouteKey;
use crate::capability::NativeCapability;
use crate::entity::{EntityView, WasccEntity};
use crate::errors::{self, Error, ErrorKind, Failure};
use crate::inthost::{success_response, Invocation, InvocationResponse};
use crate::middleware::{carried_out, InvocationHandler};
use crate::router::{route_key, show_key, shown_key};
use crate::table::Table;

verus! {

/// What does the work of a native capability provider
pub trait Provider {
    /// Handles the call of an actor, or of the host itself. An error is known by its text
    /// alone.
    fn handle_call(&self, actor: &String, op: &String, msg: &Vec<u8>) -> Result<Vec<u8>, String>;
}

/// The plugins in a host, by the binding name and the capability ID
pub struct PluginManager<P> {
    pub plugins: Table<RouteKey, NativeCapability<P>>,
}

/// Who is to handle an invocation of a capability
pub enum Handler<'a, P> {
    /// A native plugin
    Native(&'a P),
    /// A portable capability provider, which is reached by its route
    Portable,
}

/// What an attempt to find a handler leads to.
pub open spec fn handler_failure(
    native: bool,
    routed: bool,
    target: EntityView,
) -> Option<Failure> {
    match target {
        EntityView::Capability { capid, binding } => if native || routed {
            None
        } else {
            Some(
                Failure::CapabilityProvider(
                    "No such capability ID registered as native plug-in or portable provider: "@
                        + shown_key((binding, capid)),
                ),
            )
        },
        EntityView::Actor(_) => Some(
            Failure::MiscHost(
                "Attempted to invoke a capability provider plugin as though it were an actor. Bad route?"@,
            ),
        ),
    }
}

/// The error for a plugin that is there already.
pub open spec fn duplicate_plugin(key: (Seq<char>, Seq<char>)) -> Failure {
    Failure::CapabilityProvider(
        "Duplicate capability ID attempted to register provider: ("@ + key.0 + ","@ + key.1 + ")"@,
    )
}

/// The routing key of a capability.
pub open spec fn capability_key(target: EntityView) -> (Seq<char>, Seq<char>) {
    match target {
        EntityView::Capability { capid, binding } => (binding, capid),
        EntityView::Actor(pk) => (Seq::empty(), pk),
    }
}

impl<P> PluginManager<P> {
    pub fn new() -> (r: PluginManager<P>)
        ensures
            r.plugins@ == Map::<(Seq<char>, Seq<char>), NativeCapability<P>>::empty(),
    {
        PluginManager { plugins: Table::new() }
    }

    /// The plugin that a dispatcher is to be given to.
    pub fn dispatcher_target(&self, binding: &str, capid: &str) -> (r: Result<&P, Error>)
        ensures
            r is Ok == self.plugins@.contains_key((binding@, capid@)),
            r is Ok ==> *(r->Ok_0) == self.plugins@[(binding@, capid@)].plugin,
            r is Err ==> r->Err_0@ == Failure::CapabilityProvider(
                "attempt to register dispatcher for non-existent plugin"@,
            ),
    {
        match self.plugins.get(&route_key(binding, capid)) {
            Some(p) => Ok(&p.plugin),
            None => Err(
                errors::new(
                    ErrorKind::CapabilityProvider(
                        "attempt to register dispatcher for non-existent plugin".to_string(),
                    ),
                ),
            ),
        }
    }

    /// What becomes of giving a plugin its dispatcher, by whether the plugin took it.
    pub fn register_dispatcher(&self, binding: &str, capid: &str, configured: bool) -> (r: Result<
        (),
        Error,
    >)
        ensures
            r is Ok == (self.plugins@.contains_key((binding@, capid@)) && configured),
            r is Err && self.plugins@.contains_key((binding@, capid@)) ==> r->Err_0@
                == Failure::CapabilityProvider("Failed to configure dispatch on provider"@),
            !self.plugins@.contains_key((binding@, capid@)) ==> r is Err && r->Err_0@
                == Failure::CapabilityProvider(
                "attempt to register dispatcher for non-existent plugin"@,
            ),
    {
        match self.dispatcher_target(binding, capid) {
            Ok(_) => if configured {
                Ok(())
            } else {
                Err(
                    errors::new(
                        ErrorKind::CapabilityProvider(
                            "Failed to configure dispatch on provider".to_string(),
                        ),
                    ),
                )
            },
            Err(e) => Err(e),
        }
    }

    /// Finds out who is to handle an invocation: the native plugin, or, where there
    /// is none, the portable provider if there is a route to one.
    pub fn handler(&self, inv: &Invocation, routed: bool) -> (r: Result<Handler<'_, P>, Error>)
        ensures
            r is Err == handler_failure(
                self.plugins@.contains_key(capability_key(inv@.target)),
                routed,
                inv@.target,
            ) is Some,
            r is Err ==> Some(r->Err_0@) == handler_failure(
                self.plugins@.contains_key(capability_key(inv@.target)),
                routed,
                inv@.target,
            ),
            r is Ok ==> (r->Ok_0 is Native == self.plugins@.contains_key(
                capability_key(inv@.target),
            )),
            r is Ok && r->Ok_0 is Native ==> *(r->Ok_0->Native_0) == self.plugins@[capability_key(
                inv@.target,
            )].plugin,
    {
        match &inv.target {
            WasccEntity::Capability { capid, binding } => {
                let key = route_key(binding.as_str(), capid.as_str());
                match self.plugins.get(&key) {
                    // native capability is registered via plugin
                    Some(c) => Ok(Handler::Native(&c.plugin)),
                    // if there's no plugin, check if there's a route pointing to this capid (portable capability provider)
                    None => if routed {
                        Ok(Handler::Portable)
                    } else {
                        Err(
                            errors::new(
                                ErrorKind::CapabilityProvider(
                                    "No such capability ID registered as native plug-in or portable provider: ".to_string().concat(
                                    show_key(&key).as_str()),
                                ),
                            ),
                        )
                    },
                }
            },
            WasccEntity::Actor(_) => Err(
                errors::new(
                    ErrorKind::MiscHost(
                        "Attempted to invoke a capability provider plugin as though it were an actor. Bad route?".to_string(),
                    ),
                ),
            ),
        }
    }

    /// Adds a plugin, unless there is one with the same binding name and
    /// capability ID.
    pub fn add_plugin(&mut self, plugin: NativeCapability<P>) -> (r: Result<(), Error>)
        ensures
            ({
                let key = (plugin.binding_name@, plugin.descriptor@.id);
                &&& r is Ok == !old(self).plugins@.contains_key(key)
                &&& r is Ok ==> final(self).plugins@ == old(self).plugins@.insert(key, plugin)
                &&& r is Err ==> final(self).plugins@ == old(self).plugins@
                &&& r is Err ==> r->Err_0@ == duplicate_plugin(key)
            }),
    {
        let key = route_key(plugin.binding_name.as_str(), plugin.descriptor.id.as_str());
        if self.plugins.contains_key(&key) {
            Err(
                errors::new(
                    ErrorKind::CapabilityProvider(
                        "Duplicate capability ID attempted to register provider: (".to_string().concat(
                        plugin.binding_name.as_str()).concat(",").concat(
                            plugin.descriptor.id.as_str(),
                        ).concat(")"),
                    ),
                ),
            )
        } else {
            self.plugins.insert(key, plugin);
            Ok(())
        }
    }

    /// Takes out a plugin, if it is there.
    pub fn remove_plugin(&mut self, binding: &str, capid: &str) -> (r: Option<NativeCapability<P>>)
        ensures
            final(self).plugins@ == old(self).plugins@.remove((binding@, capid@)),
            r is Some == old(self).plugins@.contains_key((binding@, capid@)),
            r is Some ==> r->0 == old(self).plugins@[(binding@, capid@)],
    {
        self.plugins.remove(&route_key(binding, capid))
    }
}

/// The name under which a plugin knows who calls it.
pub open spec fn caller_of(origin: EntityView) -> Seq<char> {
    match origin {
        EntityView::Actor(pk) => pk,
        EntityView::Capability { capid, .. } => capid,
    }
}

/// The name under which a plugin knows who calls it.
pub fn caller(inv: &Invocation) -> (r: String)
    ensures
        r@ == caller_of(inv@.origin),
{
    match &inv.origin {
        WasccEntity::Actor(pk) => pk.clone(),
        WasccEntity::Capability { capid, .. } => capid.clone(),
    }
}

/// What the result of a plugin's work means: the response, or the error.
pub fn finish_call(inv: &Invocation, result: Result<Vec<u8>, String>) -> (r: Result<
    InvocationResponse,
    Error,
>)
    ensures
        r is Ok == result is Ok,
        r is Ok ==> r->Ok_0@ == success_response(inv@, result->Ok_0@),
        r is Err ==> r->Err_0@ == Failure::HostCallFailure(result->Err_0@),
{
    match result {
        Ok(msg) => Ok(InvocationResponse::success(inv, msg)),
        Err(e) => Err(errors::new(ErrorKind::HostCallFailure(e))),
    }
}

/// What comes of the work of a plugin: it is given the name of the caller, the operation
/// and the message, and its reply is the response or the error.
pub open spec fn worked_off<P: Provider>(
    plugin: P,
    inv: Invocation,
    r: Result<InvocationResponse, Error>,
) -> bool {
    exists|actor: String, reply: Result<Vec<u8>, String>|
        {
            &&& actor@ == caller_of(inv@.origin)
            &&& #[trigger] call_ensures(
                P::handle_call,
                (&plugin, &actor, &inv.operation, &inv.msg),
                reply,
            )
            &&& match reply {
                Ok(msg) => r is Ok && r->Ok_0@ == success_response(inv@, msg@),
                Err(e) => r is Err && r->Err_0@ == Failure::HostCallFailure(e@),
            }
        }
}

impl<P: Provider> PluginManager<P> {
    /// Lets the native plugin that an invocation addresses handle it, or, where there is
    /// none, the portable provider at the end of the route, if there is one.
    pub fn call<H: InvocationHandler>(&self, inv: &Invocation, route: Option<&H>) -> (r: Result<
        InvocationResponse,
        Error,
    >)
        ensures
            ({
                let key = capability_key(inv@.target);
                let native = self.plugins@.contains_key(key);
                let failure = handler_failure(native, route is Some, inv@.target);
                &&& failure is Some ==> failure_of(r) == failure
                &&& failure is None && native ==> worked_off(self.plugins@[key].plugin, *inv, r)
                &&& failure is None && !native ==> carried_out(inv@, *(route->0), r)
            }),
    {
        match self.handler(inv, route.is_some()) {
            Ok(Handler::Native(plugin)) => {
                let actor = caller(inv);
                let reply = plugin.handle_call(&actor, &inv.operation, &inv.msg);
                assert(call_ensures(
                    P::handle_call,
                    (plugin, &actor, &inv.operation, &inv.msg),
                    reply,
                ));
                finish_call(inv, reply)
            },
            Ok(Handler::Portable) => match route {
                Some(entry) => {
                    let given = inv.clone();
                    let ghost copy = given;
                    let response = entry.invoke(given);
                    assert(call_ensures(H::invoke, (entry, copy), response));
                    Ok(response)
                },
                None => vstd::pervasive::unreached(),
            },
            Err(e) => Err(e),
        }
    }
}

} // verus!
