//! Modules that are reached by the target in front of their operation.
use vstd::prelude::*;

use crate::actor::Actor;
use crate::authz::ClaimsMap;
use crate::capability::NativeCapability;
use crate::claims::{ActorMetadata, Claims};
use crate::codec::{decoded_configuration, short, short_map, text_map};
use crate::errors::{Error, Failure};
use crate::host::{
    actor_claims, actors, add_native_capability, configure, deconfigure_actor, finish_configure,
    finish_host_callback, host_callback, live_update, module_action, module_route,
    operation_target, provider_action, remove_actor, remove_capability, replace_actor,
    strip_target, Invocation, InvocationResponse, ModuleAction, ProviderAction,
};
use crate::messagepack::readable;
use crate::plugins::PluginManager;
use crate::table::Table;
use crate::text::{after, before, decimal_text, lemma_split};

verus! {

proof fn lemma_address(target: Seq<char>, op: Seq<char>)
    requires
        !target.contains('!'),
        !op.contains('!'),
    ensures
        before(target + "!"@ + op, '!') == target,
        after(target + "!"@ + op, '!') == Some(op),
        before(op, '!') == op,
{
    crate::host::addressing_is_undone(target, op);
    reveal_strlit("!");
    let s = target + "!"@ + op;
    let n = target.len() as int;
    assert forall|k: int| 0 <= k < n implies s[k] != '!' by {
        assert(target.contains(target[k]));
    }
    lemma_split(s, '!', n);
    assert(s.skip(n + 1) =~= op);
    assert forall|k: int| 0 <= k < op.len() implies op[k] != '!' by {
        assert(op.contains(op[k]));
    }
    lemma_split(op, '!', op.len() as int);
    assert(op.take(op.len() as int) =~= op);
}

/// An operation is its target, an exclamation mark, and what is to be done: the target in front
/// and the rest behind the mark are what was put together.
pub proof fn operations_come_apart(
    target: Seq<char>,
    op: Seq<char>,
    operation: &str,
    t: String,
    bare: String,
)
    requires
        !target.contains('!'),
        !op.contains('!'),
        operation@ == target + "!"@ + op,
        call_ensures(operation_target, (operation,), t),
        call_ensures(strip_target, (operation,), bare),
    ensures
        t@ == target,
        bare@ == op,
{
    lemma_address(target, op);
}

/// What runs can be removed, and nothing else can.
pub proof fn what_runs_can_be_removed(
    terminators: &Table<String, ()>,
    id: &str,
    cap: Result<(), Error>,
    actor: Result<(), Error>,
)
    requires
        call_ensures(remove_capability, (terminators, id), cap),
        call_ensures(remove_actor, (terminators, id), actor),
    ensures
        cap is Ok <==> terminators@.contains_key(id@),
        actor is Ok <==> terminators@.contains_key(id@),
        cap is Err ==> cap->Err_0@ == Failure::MiscHost("No such capability"@),
        actor is Err ==> actor->Err_0@ == Failure::MiscHost("No such actor"@),
{
}

/// To replace an actor that runs, its new bytes are sent to it, and only to it.
pub proof fn actors_are_replaced(
    routes: &Table<String, ()>,
    new_actor: &Actor,
    r: Result<Invocation, Error>,
)
    requires
        call_ensures(replace_actor, (routes, new_actor), r),
    ensures
        r is Ok <==> routes@.contains_key(new_actor.spec_claims().subject),
        r is Ok ==> r->Ok_0@.origin == "system"@ && r->Ok_0@.msg == new_actor.spec_bytes()
            && r->Ok_0@.operation == new_actor.spec_claims().subject + "!"@
            + "PerformLiveUpdate"@,
        r is Err ==> r->Err_0@ == Failure::MiscHost("Cannot replace non-existent actor"@),
{
}

/// An actor's claims are those that the host holds for it, if any, and the same ones are listed
/// for it among all.
pub proof fn claims_are_listed(
    claims: &ClaimsMap,
    pk: &str,
    one: Option<Claims<ActorMetadata>>,
    all: Vec<(String, Claims<ActorMetadata>)>,
)
    requires
        call_ensures(actor_claims, (claims, pk), one),
        call_ensures(actors, (claims,), all),
    ensures
        one is Some <==> claims@.contains_key(pk@),
        one is Some ==> one->0@ == claims@[pk@]@,
        one is Some ==> exists|i: int|
            0 <= i < all@.len() && (#[trigger] all@[i]).0@ == pk@ && all@[i].1@ == one->0@,
        forall|i: int|
            0 <= i < all@.len() ==> claims@.contains_key((#[trigger] all@[i]).0@) && all@[i].1@
                == claims@[all@[i].0@]@,
{
    if one is Some {
        assert(claims.keys().contains(pk@));
        let i = choose|i: int| 0 <= i < claims.keys().len() && claims.keys()[i] == pk@;
        assert(all@[i].0@ == pk@);
    }
    assert forall|i: int| 0 <= i < all@.len() implies claims@.contains_key((#[trigger] all@[i]).0@)
        && all@[i].1@ == claims@[all@[i].0@]@ by {
        assert(claims.keys().contains(claims.keys()[i]));
    }
}

/// A native provider is added where there is neither a plugin nor a route for it. The plugin is
/// kept wherever there was none, and one that is there is never replaced.
pub proof fn native_providers_are_added<P>(
    plugins: &mut PluginManager<P>,
    routes: &Table<String, ()>,
    capability: NativeCapability<P>,
    r: Result<(), Error>,
)
    requires
        call_ensures(add_native_capability::<P>, (plugins, routes, capability), r),
    ensures
        ({
            let key = (capability.binding_name@, capability.descriptor@.id);
            &&& r is Ok <==> !old(plugins).plugins@.contains_key(key) && !routes@.contains_key(
                capability.descriptor@.id,
            )
            &&& r is Err ==> r->Err_0@ is CapabilityProvider
            &&& final(plugins).plugins@.contains_key(key)
            &&& old(plugins).plugins@.contains_key(key) ==> final(plugins).plugins@[key]
                == old(plugins).plugins@[key]
            &&& !old(plugins).plugins@.contains_key(key) ==> final(plugins).plugins@[key]
                == capability
            &&& forall|k: (Seq<char>, Seq<char>)|
                k != key ==> (#[trigger] final(plugins).plugins@.contains_key(k)
                    <==> old(plugins).plugins@.contains_key(k))
        }),
{
}

/// A configuration is sent to a provider exactly where the actor may use it and there is a route
/// to it: under the operation that was asked for, for the actor, and with the same values.
pub proof fn configurations_are_sent(
    routes: &Table<String, ()>,
    authorized: bool,
    operation: &str,
    module: &str,
    capid: &str,
    config: Table<String, String>,
    r: Result<Invocation, Error>,
)
    requires
        call_ensures(configure, (routes, authorized, operation, module, capid, config), r),
    ensures
        r is Ok <==> authorized && routes@.contains_key(capid@),
        !authorized ==> r->Err_0@ is Authorization,
        authorized && r is Err ==> r->Err_0@ == Failure::CapabilityProvider(
            "No such capability provider: "@ + capid@,
        ),
        r is Ok ==> r->Ok_0@.origin == "system"@ && r->Ok_0@.operation == capid@ + "!"@
            + operation@,
        r is Ok && module@.len() < 0x4000_0000 && config@.dom().finite() && config@.dom().len()
            < 0x1_0000_0000 && (forall|k: Seq<char>| #[trigger]
            config@.contains_key(k) ==> k.len() < 0x4000_0000 && config@[k]@.len() < 0x4000_0000)
            ==> readable(
            r->Ok_0@.msg,
        ) && decoded_configuration(r->Ok_0@.msg) is Ok && decoded_configuration(
            r->Ok_0@.msg,
        )->Ok_0.module == module@ && (forall|k: Seq<char>| #[trigger]
            decoded_configuration(r->Ok_0@.msg)->Ok_0.values.contains_key(k)
                <==> config@.contains_key(k)) && (forall|k: Seq<char>| #[trigger]
            decoded_configuration(r->Ok_0@.msg)->Ok_0.values.contains_key(k)
                ==> decoded_configuration(r->Ok_0@.msg)->Ok_0.values[k] == config@[k]@),
{
    let m = text_map(config@);
    assert(m.dom() =~= config@.dom());
    if forall|k: Seq<char>| #[trigger]
        config@.contains_key(k) ==> k.len() < 0x4000_0000 && config@[k]@.len() < 0x4000_0000 {
        assert forall|k: Seq<char>| #[trigger] m.contains_key(k) implies short(k) && short(
            m[k],
        ) by {
            assert(config@.contains_key(k));
        }
    }
}

/// A provider has taken a configuration exactly where its reply holds no error.
pub proof fn configurations_are_taken(capid: &str, reply: &InvocationResponse, r: Result<(), Error>)
    requires
        call_ensures(finish_configure, (capid, reply), r),
    ensures
        r is Ok <==> reply.error is None,
        r is Err ==> r->Err_0@ == Failure::CapabilityProvider(
            "Failed to configure "@ + capid@ + " - "@ + reply.error->0@,
        ),
{
}

/// An invocation that is addressed to a capability goes to its plugin as it is. Any other is
/// delivered to the actor that it is addressed to, with the capability for its origin, where the
/// actor may use the capability and there is a route to it; else the response is an error.
pub proof fn providers_deliver_to_actors(
    target: Seq<char>,
    op: Seq<char>,
    capid: &str,
    inv: Invocation,
    authorized: bool,
    routed: bool,
    r: ProviderAction,
)
    requires
        !target.contains('!'),
        !op.contains('!'),
        inv@.operation == target + "!"@ + op,
        call_ensures(provider_action, (capid, inv, authorized, routed), r),
    ensures
        target == capid@ <==> r is InvokePlugin,
        r is InvokePlugin ==> r->InvokePlugin_0@ == inv@,
        target != capid@ && authorized && routed <==> r is Deliver,
        r is Deliver ==> r->Deliver_0@.origin == capid@ && r->Deliver_0@.operation
            == inv@.operation && r->Deliver_0@.msg == inv@.msg,
        r is Respond ==> r->Respond_0.error is Some && r->Respond_0.msg@.len() == 0,
        r is Respond && !authorized ==> r->Respond_0.error->0@
            == "Dispatch between actor and unauthorized capability: "@ + target + " <-> "@
            + capid@,
        r is Respond && authorized ==> r->Respond_0.error->0@ == "Dispatch to unknown actor"@,
{
    lemma_address(target, op);
}

/// The route to an actor is its public key; the one to a portable provider is the first
/// capability in its claims.
pub proof fn modules_have_routes(
    claims: &Claims<ActorMetadata>,
    actor: bool,
    caps: Vec<String>,
    r: String,
)
    requires
        call_ensures(Claims::<ActorMetadata>::caps, (claims,), caps),
        claims@.metadata is Some,
        actor || caps@.len() > 0,
        call_ensures(module_route, (claims, actor), r),
    ensures
        actor ==> r@ == claims@.subject,
        !actor ==> r@ == caps@[0]@,
{
    if !actor {
        assert(crate::text::texts(caps@)[0] == caps@[0]@);
    }
}

/// A module gets an operation without its target, and is replaced where that is what the
/// operation asks for.
pub proof fn modules_get_bare_operations(
    target: Seq<char>,
    op: Seq<char>,
    inv: Invocation,
    r: ModuleAction,
)
    requires
        !target.contains('!'),
        !op.contains('!'),
        inv@.operation == target + "!"@ + op,
        call_ensures(module_action, (inv,), r),
    ensures
        r is LiveUpdate <==> op == "PerformLiveUpdate"@,
        r is LiveUpdate ==> r->LiveUpdate_0@.operation == op && r->LiveUpdate_0@.msg == inv@.msg
            && r->LiveUpdate_0@.origin == inv@.origin,
        r is Invoke ==> r->Invoke_0@.operation == op && r->Invoke_0@.msg == inv@.msg
            && r->Invoke_0@.origin == inv@.origin,
{
    lemma_address(target, op);
}

/// A live update is answered with an error exactly where the module was not replaced.
pub proof fn updates_are_answered(replaced: bool, r: InvocationResponse)
    requires
        call_ensures(live_update, (replaced,), r),
    ensures
        r.error is None <==> replaced,
        r.msg@.len() == 0,
{
}

/// Every provider is told that an actor is gone, each by its own name.
pub proof fn all_providers_are_told(capabilities: &Vec<String>, key: &str, r: Vec<Invocation>)
    requires
        call_ensures(deconfigure_actor, (capabilities, key), r),
    ensures
        r@.len() == capabilities@.len(),
        forall|i: int|
            0 <= i < r@.len() ==> (#[trigger] r@[i])@.operation == capabilities@[i]@ + "!"@
                + "RemoveActor"@ && r@[i]@.origin == "system"@,
        key@.len() < 0x4000_0000 ==> forall|i: int|
            0 <= i < r@.len() ==> decoded_configuration((#[trigger] r@[i])@.msg) is Ok
                && decoded_configuration(r@[i]@.msg)->Ok_0.module == key@,
{
    assert(short_map(Map::<Seq<char>, Seq<char>>::empty()));
}

/// A guest's call goes through exactly where the guest may use the capability and there is a
/// route to it, and then as it was made.
pub proof fn calls_go_through(
    id: u64,
    pk: &str,
    op: &str,
    payload: &[u8],
    authorized: bool,
    routed: bool,
    n: String,
    t: String,
    r: Result<Invocation, Error>,
)
    requires
        call_ensures(host_callback, (id, pk, op, payload, authorized, routed), r),
        call_ensures(decimal_text, (id,), n),
        call_ensures(operation_target, (op,), t),
    ensures
        r is Ok <==> authorized && routed,
        r is Ok ==> r->Ok_0@.origin == pk@ && r->Ok_0@.operation == op@ && r->Ok_0@.msg == payload@,
        !authorized ==> r->Err_0@ == Failure::Authorization(
            "Actor "@ + n@ + " does not have permission to use capability "@ + t@,
        ),
        authorized && !routed ==> r->Err_0@ == Failure::HostCallFailure(
            "Attempt to make host call into non-existent target"@,
        ),
{
}

/// What a guest gets of a reply is its message, and where there is no reply, the error.
pub proof fn calls_are_answered(
    reply: Result<InvocationResponse, String>,
    r: Result<Vec<u8>, Error>,
)
    requires
        call_ensures(finish_host_callback, (reply,), r),
    ensures
        r is Ok <==> reply is Ok,
        r is Ok ==> r->Ok_0@ == reply->Ok_0.msg@,
        r is Err ==> r->Err_0@ == Failure::HostCallFailure(reply->Err_0@),
{
}

/// An invocation and a response hold what they were made of.
pub proof fn invocations_hold_what_they_are_made_of(
    origin: String,
    op: &str,
    msg: Vec<u8>,
    err: &str,
    inv: Invocation,
    good: InvocationResponse,
    bad: InvocationResponse,
)
    requires
        call_ensures(Invocation::new, (origin, op, msg), inv),
        call_ensures(InvocationResponse::success, (msg,), good),
        call_ensures(InvocationResponse::error, (err,), bad),
    ensures
        inv@.origin == origin@ && inv@.operation == op@ && inv@.msg == msg@,
        good.msg@ == msg@ && good.error is None,
        bad.msg@.len() == 0 && bad.error is Some && bad.error->0@ == err@,
{
}

/// What is refused is told by name: an actor that may not use a capability, and a provider that is
/// there already.
pub proof fn refusals_are_told_by_name<P>(
    routes: &Table<String, ()>,
    operation: &str,
    module: &str,
    capid: &str,
    config: Table<String, String>,
    r: Result<Invocation, Error>,
    plugins: &mut PluginManager<P>,
    capability: NativeCapability<P>,
    q: Result<(), Error>,
)
    requires
        call_ensures(configure, (routes, false, operation, module, capid, config), r),
        call_ensures(add_native_capability::<P>, (plugins, routes, capability), q),
    ensures
        r is Err && r->Err_0@ == Failure::Authorization(
            "Actor "@ + module@ + " is not authorized to use capability "@ + capid@
                + ", configuration rejected"@,
        ),
        old(plugins).plugins@.contains_key((capability.binding_name@, capability.descriptor@.id))
            ==> q is Err && q->Err_0@ == Failure::CapabilityProvider(
            "Duplicate capability ID attempted to register provider: ("@ + capability.binding_name@
                + ","@ + capability.descriptor@.id + ")"@,
        ),
        !old(plugins).plugins@.contains_key((capability.binding_name@, capability.descriptor@.id))
            && q is Err ==> q->Err_0@ == Failure::CapabilityProvider(
            "Attempt to register the same capability provider multiple times: "@
                + capability.descriptor@.id,
        ),
{
}

} // verus!
