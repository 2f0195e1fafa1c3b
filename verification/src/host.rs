//! A host without bindings: every actor and every capability provider is reached by one
//! route, and an operation names its target, as in `wascc:messaging!Publish`.
//!
//! The routes and the threads are held outside of this module. What is here decides about
//! them, and says what is sent on which route.
use vstd::prelude::*;

use crate::actor::Actor;
use crate::authz::{failure_of, get_all_claims, ClaimsMap};
use crate::bus::lattice::opt_claims;
use crate::capability::NativeCapability;
use crate::claims::{attested, ActorMetadata, Claims};
use crate::codec::{
    text_map, CapabilityConfiguration, ConfigurationView, OP_PERFORM_LIVE_UPDATE, OP_REMOVE_ACTOR,
    SYSTEM_ACTOR,
};
use crate::errors::{self, Error, ErrorKind, Failure};
use crate::inthost::copy_bytes;
use crate::messages::{carries, encode_removal};
use crate::plugins::{duplicate_plugin, PluginManager};
use crate::table::Table;
use crate::text::{after, before, decimal, decimal_text, lemma_split, same, split_once};

verus! {

/// An immutable representation of an invocation within waSCC
#[derive(Debug)]
pub struct Invocation {
    pub origin: String,
    pub operation: String,
    pub msg: Vec<u8>,
}

#[verifier::ext_equal]
pub ghost struct InvocationView {
    pub origin: Seq<char>,
    pub operation: Seq<char>,
    pub msg: Seq<u8>,
}

impl View for Invocation {
    type V = InvocationView;

    open spec fn view(&self) -> InvocationView {
        InvocationView { origin: self.origin@, operation: self.operation@, msg: self.msg@ }
    }
}

impl Invocation {
    pub fn new(origin: String, op: &str, msg: Vec<u8>) -> (r: Invocation)
        ensures
            r@ == (InvocationView { origin: origin@, operation: op@, msg: msg@ }),
    {
        Invocation { origin, operation: op.to_string(), msg }
    }
}

/// The response to an invocation
#[derive(Debug)]
pub struct InvocationResponse {
    pub msg: Vec<u8>,
    pub error: Option<String>,
}

impl InvocationResponse {
    pub fn success(msg: Vec<u8>) -> (r: InvocationResponse)
        ensures
            r.msg == msg,
            r.error is None,
    {
        InvocationResponse { msg, error: None }
    }

    pub fn error(err: &str) -> (r: InvocationResponse)
        ensures
            r.msg@.len() == 0,
            r.error is Some,
            r.error->0@ == err@,
    {
        InvocationResponse { msg: Vec::new(), error: Some(err.to_string()) }
    }
}

/// An operation of a target.
pub open spec fn addressed(target: Seq<char>, op: Seq<char>) -> Seq<char> {
    target + "!"@ + op
}

fn address(target: &str, op: &str) -> (r: String)
    ensures
        r@ == addressed(target@, op@),
{
    target.to_string().concat("!").concat(op)
}

/// The target that an operation names.
pub fn operation_target(operation: &str) -> (r: String)
    ensures
        r@ == before(operation@, '!'),
{
    split_once(operation, '!').0
}

/// An operation without the target that it names.
pub open spec fn bare_operation(operation: Seq<char>) -> Seq<char> {
    before(after(operation, '!')->0, '!')
}

/// Removes the routing prefix from an operation.
pub fn strip_target(operation: &str) -> (r: String)
    requires
        after(operation@, '!') is Some,
    ensures
        r@ == bare_operation(operation@),
{
    match split_once(operation, '!').1 {
        Some(rest) => split_once(rest.as_str(), '!').0,
        None => String::new(),
    }
}

/// Removes a portable capability provider from the host: its thread is told to stop, if
/// there is one.
pub fn remove_capability(terminators: &Table<String, ()>, cap_id: &str) -> (r: Result<(), Error>)
    ensures
        r is Ok == terminators@.contains_key(cap_id@),
        r is Err ==> r->Err_0@ == Failure::MiscHost("No such capability"@),
{
    if terminators.contains_key(&cap_id.to_string()) {
        Ok(())
    } else {
        Err(errors::new(ErrorKind::MiscHost("No such capability".to_string())))
    }
}

/// Removes an actor from the host: its thread is told to stop, if there is one.
pub fn remove_actor(terminators: &Table<String, ()>, pk: &str) -> (r: Result<(), Error>)
    ensures
        r is Ok == terminators@.contains_key(pk@),
        r is Err ==> r->Err_0@ == Failure::MiscHost("No such actor"@),
{
    if terminators.contains_key(&pk.to_string()) {
        Ok(())
    } else {
        Err(errors::new(ErrorKind::MiscHost("No such actor".to_string())))
    }
}

/// Replaces one running actor with another live actor with no message loss: the result
/// is what is sent to it.
pub fn replace_actor(routes: &Table<String, ()>, new_actor: &Actor) -> (r: Result<Invocation, Error>)
    ensures
        r is Ok == routes@.contains_key(new_actor.spec_claims().subject),
        r is Ok ==> r->Ok_0@ == (InvocationView {
            origin: SYSTEM_ACTOR@,
            operation: addressed(new_actor.spec_claims().subject, OP_PERFORM_LIVE_UPDATE@),
            msg: new_actor.spec_bytes(),
        }),
        r is Err ==> r->Err_0@ == Failure::MiscHost("Cannot replace non-existent actor"@),
{
    let public_key = new_actor.public_key();
    if routes.contains_key(&public_key) {
        let op = address(public_key.as_str(), OP_PERFORM_LIVE_UPDATE);
        Ok(
            Invocation::new(
                SYSTEM_ACTOR.to_string(),
                op.as_str(),
                copy_bytes(new_actor.bytes().as_slice()),
            ),
        )
    } else {
        Err(errors::new(ErrorKind::MiscHost("Cannot replace non-existent actor".to_string())))
    }
}

/// Retrieves the list of all actors running in the host, returning a tuple of each
/// actor's primary key and that actor's security claims.
pub fn actors(claims: &ClaimsMap) -> (r: Vec<(String, Claims<ActorMetadata>)>)
    ensures
        claims.listed(),
        r@.len() == claims.keys().len(),
        forall|i: int|
            0 <= i < r@.len() ==> (#[trigger] r@[i]).0@ == claims.keys()[i] && r@[i].1@
                == claims@[claims.keys()[i]]@,
{
    get_all_claims(claims)
}

/// Retrieves the security claims for a given actor. Returns `None` if that actor is
/// not running in the host.
pub fn actor_claims(claims: &ClaimsMap, pk: &str) -> (r: Option<Claims<ActorMetadata>>)
    ensures
        opt_claims(r) == (if claims@.contains_key(pk@) {
            Some(claims@[pk@]@)
        } else {
            None
        }),
{
    match claims.get(&pk.to_string()) {
        Some(c) => Some(c.copy()),
        None => None,
    }
}

/// Adds a native capability provider to the host, unless there is a plugin or a route for
/// it already. The plugin is kept also where there is a route.
pub fn add_native_capability<P>(
    plugins: &mut PluginManager<P>,
    routes: &Table<String, ()>,
    capability: NativeCapability<P>,
) -> (r: Result<(), Error>)
    ensures
        ({
            let capid = capability.descriptor@.id;
            let key = (capability.binding_name@, capid);
            &&& old(plugins).plugins@.contains_key(key) ==> {
                &&& failure_of(r) == Some(duplicate_plugin(key))
                &&& final(plugins).plugins@ == old(plugins).plugins@
            }
            &&& !old(plugins).plugins@.contains_key(key) ==> {
                &&& failure_of(r) == (if routes@.contains_key(capid) {
                    Some(
                        Failure::CapabilityProvider(
                            "Attempt to register the same capability provider multiple times: "@
                                + capid,
                        ),
                    )
                } else {
                    None
                })
                &&& final(plugins).plugins@ == old(plugins).plugins@.insert(key, capability)
            }
        }),
{
    let capid = capability.id();
    match plugins.add_plugin(capability) {
        Ok(_) => {},
        Err(e) => {
            return Err(e);
        },
    }
    if routes.contains_key(&capid) {
        Err(
            errors::new(
                ErrorKind::CapabilityProvider(
                    "Attempt to register the same capability provider multiple times: ".to_string().concat(
                        capid.as_str(),
                    ),
                ),
            ),
        )
    } else {
        Ok(())
    }
}

/// Why a configuration is refused: the actor may not use the capability, or there is no
/// provider for it.
pub open spec fn configuration_refusal(
    authorized: bool,
    routed: bool,
    module: Seq<char>,
    capid: Seq<char>,
) -> Option<Failure> {
    if !authorized {
        Some(
            Failure::Authorization(
                "Actor "@ + module + " is not authorized to use capability "@ + capid
                    + ", configuration rejected"@,
            ),
        )
    } else if !routed {
        Some(Failure::CapabilityProvider("No such capability provider: "@ + capid))
    } else {
        None
    }
}

/// The first half of supplying a set of key-value pairs for a given actor to a capability
/// provider: what is sent to it, by the operation with which providers are configured.
pub fn configure(
    routes: &Table<String, ()>,
    authorized: bool,
    operation: &str,
    module: &str,
    capid: &str,
    config: Table<String, String>,
) -> (r: Result<Invocation, Error>)
    ensures
        failure_of(r) == configuration_refusal(
            authorized,
            routes@.contains_key(capid@),
            module@,
            capid@,
        ),
        r is Ok ==> {
            &&& r->Ok_0@.origin == SYSTEM_ACTOR@
            &&& r->Ok_0@.operation == addressed(capid@, operation@)
            &&& carries(
                r->Ok_0@.msg,
                ConfigurationView { module: module@, values: text_map(config@) },
            )
        },
{
    if !authorized {
        return Err(
            errors::new(
                ErrorKind::Authorization(
                    "Actor ".to_string().concat(module).concat(
                        " is not authorized to use capability ",
                    ).concat(capid).concat(", configuration rejected"),
                ),
            ),
        );
    }
    if !routes.contains_key(&capid.to_string()) {
        return Err(
            errors::new(
                ErrorKind::CapabilityProvider(
                    "No such capability provider: ".to_string().concat(capid),
                ),
            ),
        );
    }
    let op = address(capid, operation);
    Ok(Invocation::new(SYSTEM_ACTOR.to_string(), op.as_str(), gen_config(module, config)))
}

/// The second half of supplying a configuration.
pub fn finish_configure(capid: &str, reply: &InvocationResponse) -> (r: Result<(), Error>)
    ensures
        r is Ok == reply.error is None,
        r is Err ==> r->Err_0@ == Failure::CapabilityProvider(
            "Failed to configure "@ + capid@ + " - "@ + reply.error->0@,
        ),
{
    match &reply.error {
        Some(e) => Err(
            errors::new(
                ErrorKind::CapabilityProvider(
                    "Failed to configure ".to_string().concat(capid).concat(" - ").concat(
                        e.as_str(),
                    ),
                ),
            ),
        ),
        None => Ok(()),
    }
}

/// The configuration of an actor, in the binary form in which it is sent to a capability
/// provider.
fn gen_config(module: &str, values: Table<String, String>) -> (r: Vec<u8>)
    ensures
        carries(r@, (ConfigurationView { module: module@, values: text_map(values@) })),
{
    let cfgvals = CapabilityConfiguration { module: module.to_string(), values };
    cfgvals.encode()
}

/// What a native capability provider's thread does about an invocation
pub enum ProviderAction {
    /// Perform the invocation on the plugin
    InvokePlugin(Invocation),
    /// Deliver it to the actor that it names
    Deliver(Invocation),
    Respond(InvocationResponse),
}

/// What a native capability provider's thread does about an invocation: one whose target
/// is the capability goes to the plugin, and any other is a delivery to an actor, which
/// has to be authorized to use the capability. Whether it is, and whether there is a
/// route to it, is given.
pub fn provider_action(capid: &str, inv: Invocation, authorized: bool, routed: bool) -> (r:
    ProviderAction)
    ensures
        ({
            let target = before(inv@.operation, '!');
            &&& target == capid@ ==> (r matches ProviderAction::InvokePlugin(i) && i == inv)
            &&& target != capid@ && !authorized ==> (r matches ProviderAction::Respond(resp)
                && resp.msg@.len() == 0 && resp.error is Some && resp.error->0@
                == "Dispatch between actor and unauthorized capability: "@ + target + " <-> "@
                + capid@)
            &&& target != capid@ && authorized && !routed ==> (r matches ProviderAction::Respond(
                resp,
            ) && resp.msg@.len() == 0 && resp.error is Some && resp.error->0@
                == "Dispatch to unknown actor"@)
            &&& target != capid@ && authorized && routed ==> (r matches ProviderAction::Deliver(i)
                && i@ == (InvocationView { origin: capid@, ..inv@ }))
        }),
{
    let target = operation_target(inv.operation.as_str());
    if same(target.as_str(), capid) {
        // if target of invocation is this particular capability,
        // then perform the invocation on the plugin
        ProviderAction::InvokePlugin(inv)
    } else if !authorized {
        let text = "Dispatch between actor and unauthorized capability: ".to_string().concat(
            target.as_str(),
        ).concat(" <-> ").concat(capid);
        ProviderAction::Respond(InvocationResponse::error(text.as_str()))
    } else if routed {
        ProviderAction::Deliver(
            Invocation { origin: capid.to_string(), operation: inv.operation, msg: inv.msg },
        )
    } else {
        ProviderAction::Respond(InvocationResponse::error("Dispatch to unknown actor"))
    }
}

/// The key of the route to a module: an actor's is its own, and a portable capability
/// provider's is the first capability that it attests.
pub fn module_route(claims: &Claims<ActorMetadata>, actor: bool) -> (r: String)
    requires
        actor || attested(claims@).len() > 0,
    ensures
        actor ==> r@ == claims@.subject,
        !actor ==> r@ == attested(claims@)[0],
{
    if actor {
        claims.subject.clone()
    } else {
        let caps = claims.caps();
        caps[0].clone()
    }
}

/// What a module's thread does about an invocation
pub enum ModuleAction {
    /// Replace the module by the one in the message
    LiveUpdate(Invocation),
    /// Hand the invocation to the module
    Invoke(Invocation),
}

/// What a module's thread does about an invocation, once the routing prefix is removed
/// from the operation.
pub fn module_action(inv: Invocation) -> (r: ModuleAction)
    requires
        after(inv@.operation, '!') is Some,
    ensures
        ({
            let bare = InvocationView { operation: bare_operation(inv@.operation), ..inv@ };
            &&& bare.operation == OP_PERFORM_LIVE_UPDATE@ ==> (r matches ModuleAction::LiveUpdate(i)
                && i@ == bare)
            &&& bare.operation != OP_PERFORM_LIVE_UPDATE@ ==> (r matches ModuleAction::Invoke(i)
                && i@ == bare)
        }),
{
    let op = strip_target(inv.operation.as_str());
    let update = same(op.as_str(), OP_PERFORM_LIVE_UPDATE);
    let bare = Invocation { origin: inv.origin, operation: op, msg: inv.msg };
    if update {
        ModuleAction::LiveUpdate(bare)
    } else {
        ModuleAction::Invoke(bare)
    }
}

/// The response to a live update, by whether the module was replaced.
pub fn live_update(replaced: bool) -> (r: InvocationResponse)
    ensures
        r.msg@.len() == 0,
        r.error is None == replaced,
        !replaced ==> r.error->0@ == "Failed to perform hot swap"@,
{
    if replaced {
        InvocationResponse::success(Vec::new())
    } else {
        InvocationResponse::error("Failed to perform hot swap")
    }
}

/// The messages by which all capability providers free up what they hold for an actor.
pub fn deconfigure_actor(capabilities: &Vec<String>, key: &str) -> (r: Vec<Invocation>)
    ensures
        r@.len() == capabilities@.len(),
        forall|i: int|
            0 <= i < r@.len() ==> {
                &&& (#[trigger] r@[i])@.origin == SYSTEM_ACTOR@
                &&& r@[i]@.operation == addressed(capabilities@[i]@, OP_REMOVE_ACTOR@)
                &&& carries(
                    r@[i]@.msg,
                    ConfigurationView { module: key@, values: Map::empty() },
                )
            },
{
    let buf = encode_removal(key);
    let mut out: Vec<Invocation> = Vec::new();
    let mut i: usize = 0;
    while i < capabilities.len()
        invariant
            i <= capabilities.len(),
            out@.len() == i,
            carries(buf@, (ConfigurationView { module: key@, values: Map::empty() })),
            forall|j: int|
                0 <= j < i ==> {
                    &&& (#[trigger] out@[j])@.origin == SYSTEM_ACTOR@
                    &&& out@[j]@.operation == addressed(capabilities@[j]@, OP_REMOVE_ACTOR@)
                    &&& carries(
                        out@[j]@.msg,
                        ConfigurationView { module: key@, values: Map::empty() },
                    )
                },
        decreases capabilities.len() - i,
    {
        out.push(
            Invocation {
                origin: SYSTEM_ACTOR.to_string(),
                operation: address(capabilities[i].as_str(), OP_REMOVE_ACTOR),
                msg: copy_bytes(buf.as_slice()),
            },
        );
        i += 1;
    }
    out
}

/// Why a call of a guest module is refused: the module may not use the capability, or
/// there is no provider for it.
pub open spec fn call_refusal(authorized: bool, routed: bool, id: u64, capid: Seq<char>) -> Option<
    Failure,
> {
    if !authorized {
        Some(
            Failure::Authorization(
                "Actor "@ + decimal(id as nat) + " does not have permission to use capability "@
                    + capid,
            ),
        )
    } else if !routed {
        Some(Failure::HostCallFailure("Attempt to make host call into non-existent target"@))
    } else {
        None
    }
}

/// The first half of a call of a guest module to its host. The operation is assumed to be
/// a string in the form [capability_id]![operation] where `capability_id` is a
/// namespace-delimited string like `wapc:messaging` or `wapc:keyvalue`. Whether the module
/// may use the capability, and whether there is a route to it, is given.
pub fn host_callback(
    id: u64,
    pk: &str,
    op: &str,
    payload: &[u8],
    authorized: bool,
    routed: bool,
) -> (r: Result<Invocation, Error>)
    ensures
        failure_of(r) == call_refusal(authorized, routed, id, before(op@, '!')),
        r is Ok ==> r->Ok_0@ == (InvocationView { origin: pk@, operation: op@, msg: payload@ }),
{
    let capability_id = operation_target(op);
    if !authorized {
        return Err(
            errors::new(
                ErrorKind::Authorization(
                    "Actor ".to_string().concat(decimal_text(id).as_str()).concat(
                        " does not have permission to use capability ",
                    ).concat(capability_id.as_str()),
                ),
            ),
        );
    }
    if !routed {
        return Err(
            errors::new(
                ErrorKind::HostCallFailure(
                    "Attempt to make host call into non-existent target".to_string(),
                ),
            ),
        );
    }
    Ok(Invocation::new(pk.to_string(), op, copy_bytes(payload)))
}

/// The second half of a call of a guest module to its host: the message in the reply, or
/// the error where none came. What the reply says of an error of its own is not minded.
pub fn finish_host_callback(reply: Result<InvocationResponse, String>) -> (r: Result<
    Vec<u8>,
    Error,
>)
    ensures
        r is Ok == reply is Ok,
        r is Ok ==> r->Ok_0 == reply->Ok_0.msg,
        r is Err ==> r->Err_0@ == Failure::HostCallFailure(reply->Err_0@),
{
    match reply {
        Ok(ir) => Ok(ir.msg),
        Err(e) => Err(errors::new(ErrorKind::HostCallFailure(e))),
    }
}

/// The operation of an invocation to a target comes out as it went in, once the routing
/// prefix is removed, and the target is the one that it was addressed to, where neither
/// holds an exclamation mark.
pub proof fn addressing_is_undone(target: Seq<char>, op: Seq<char>)
    requires
        !target.contains('!'),
        !op.contains('!'),
    ensures
        before(addressed(target, op), '!') == target,
        after(addressed(target, op), '!') is Some,
        bare_operation(addressed(target, op)) == op,
{
    reveal_strlit("!");
    let s = addressed(target, op);
    let n = target.len() as int;
    assert(s[n] == '!');
    assert forall|k: int| 0 <= k < n implies s[k] != '!' by {
        assert(target.contains(target[k]));
    }
    lemma_split(s, '!', n);
    assert(s.take(n) =~= target);
    assert(s.skip(n + 1) =~= op);
    assert forall|k: int| 0 <= k < op.len() implies op[k] != '!' by {
        assert(op.contains(op[k]));
    }
    lemma_split(op, '!', op.len() as int);
    assert(op.take(op.len() as int) =~= op);
}

} // verus!
