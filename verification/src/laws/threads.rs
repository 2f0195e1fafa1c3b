//! The threads of a host.
use vstd::prelude::*;

use crate::bindings::{of_capid, private_subject};
use crate::bus::lattice::{Binding, BusEvent, EventView};
use crate::bus::{bound_subject_of, provider_subject_of};
use crate::claims::{text_view, HostKey};
use crate::codec::{
    decoded_configuration, is_configuration, CapabilityDescriptor, ConfigurationView,
};
use crate::entity::EntityView;
use crate::inthost::{Invocation, InvocationResponse};
use crate::messages::carries;
use crate::runtime::Host;
use crate::spawns::{
    actor_from_config, follow_up, follow_up_for, is_live_update, reestablish_bindings,
    refuse_unbound, to_provider, try_actor_from_config, try_follow_up, FollowUp, FollowUpView,
    ProviderStart, ProviderStop, Role,
};
use crate::text::texts;

verus! {

/// The thread of every provider, portable or native, takes what binds an actor and what
/// asks the provider to describe itself: no binding is needed for those.
pub proof fn providers_can_be_bound(role: Role, inv: &Invocation, r: Option<InvocationResponse>)
    requires
        inv@.operation == "BindActor"@ || inv@.operation == "GetCapabilityDescriptor"@,
        call_ensures(refuse_unbound, (role, inv), r),
    ensures
        r is None,
{
}

/// A native provider's own thread also takes what removes an actor from it. A portable
/// provider's thread does not.
pub proof fn native_providers_can_be_unbound(
    role: Role,
    inv: &Invocation,
    r: Option<InvocationResponse>,
)
    requires
        inv@.operation == "RemoveActor"@,
        call_ensures(refuse_unbound, (role, inv), r),
    ensures
        role is PortableProvider <==> r is Some,
{
    reveal_strlit("RemoveActor");
    reveal_strlit("BindActor");
    reveal_strlit("GetCapabilityDescriptor");
    assert("RemoveActor"@.len() != "BindActor"@.len());
    assert("RemoveActor"@.len() != "GetCapabilityDescriptor"@.len());
}

/// The threads of actors, and those of providers for an actor that is bound to them, take
/// every operation.
pub proof fn bound_threads_refuse_nothing(
    role: Role,
    inv: &Invocation,
    r: Option<InvocationResponse>,
)
    requires
        role is Actor || role is BoundProvider,
        call_ensures(refuse_unbound, (role, inv), r),
    ensures
        r is None,
{
}

/// A provider's own thread responds to any other operation itself, with an error, and under
/// the identifier of the invocation.
pub proof fn other_operations_need_a_binding(
    role: Role,
    inv: &Invocation,
    r: Option<InvocationResponse>,
)
    requires
        role is PortableProvider || role is NativeProvider,
        inv@.operation != "BindActor"@,
        inv@.operation != "GetCapabilityDescriptor"@,
        inv@.operation != "RemoveActor"@,
        call_ensures(refuse_unbound, (role, inv), r),
    ensures
        r is Some,
        r->0@.invocation_id == inv@.id,
        r->0@.error == Some(
            "Attempted to invoke binding-required operation on unbound provider"@,
        ),
        r->0@.msg.len() == 0,
{
}

/// Only an actor's thread replaces the module that it runs, and only when it is asked to.
pub proof fn only_actors_are_replaced(role: Role, inv: &Invocation, r: bool)
    requires
        call_ensures(is_live_update, (role, inv), r),
    ensures
        r <==> role == Role::Actor && inv@.operation == "PerformLiveUpdate"@,
{
}

/// Where a native provider has taken a binding, the private conversations with the actor that
/// the configuration names start, and where it has let go of an actor, the ones with that
/// actor end: so the one undoes the other. A response with an error starts and stops nothing.
pub proof fn conversations_follow_bindings(
    bind: &Invocation,
    remove: &Invocation,
    response: &InvocationResponse,
    started: Option<FollowUp>,
    stopped: Option<FollowUp>,
)
    requires
        bind@.operation == "BindActor"@,
        remove@.operation == "RemoveActor"@,
        bind@.msg == remove@.msg,
        is_configuration(bind@.msg),
        call_ensures(try_follow_up, (Role::NativeProvider, bind, response), started),
        call_ensures(try_follow_up, (Role::NativeProvider, remove, response), stopped),
    ensures
        started is Some && stopped is Some,
        response@.error is None ==> started->0@ == FollowUpView::StartBound(
            decoded_configuration(bind@.msg)->Ok_0.module,
        ),
        response@.error is None ==> stopped->0@ == FollowUpView::StopBound(
            decoded_configuration(bind@.msg)->Ok_0.module,
        ),
        response@.error is Some ==> started->0 is Nothing && stopped->0 is Nothing,
{
    reveal_strlit("RemoveActor");
    reveal_strlit("BindActor");
    assert("RemoveActor"@.len() != "BindActor"@.len());
}

/// What follows a response that reports success: a portable provider that was bound holds
/// private conversations, and nothing else starts or stops but what a native provider does
/// for the actor that it was bound to or that was removed from it.
pub proof fn what_follows_a_response(
    role: Role,
    operation: &str,
    failed: bool,
    actor: String,
    r: FollowUp,
)
    requires
        call_ensures(follow_up_for, (role, operation, failed, actor), r),
    ensures
        r is StartBoundPortable <==> !failed && role == Role::PortableProvider && operation@
            == "BindActor"@,
        r is StartBound <==> !failed && role == Role::NativeProvider && operation@ == "BindActor"@,
        r is StopBound <==> !failed && role == Role::NativeProvider && operation@
            == "RemoveActor"@,
        r is StartBound ==> r->StartBound_0@ == actor@,
        r is StopBound ==> r->StopBound_0@ == actor@,
{
    reveal_strlit("RemoveActor");
    reveal_strlit("BindActor");
    assert("RemoveActor"@.len() != "BindActor"@.len());
}

/// Nothing comes back only where a native provider has done what it was asked and the
/// message, which ought to name the actor, is no configuration.
pub proof fn only_unnamed_actors_stop_a_thread(
    role: Role,
    inv: &Invocation,
    response: &InvocationResponse,
    r: Option<FollowUp>,
)
    requires
        call_ensures(try_follow_up, (role, inv, response), r),
    ensures
        is_configuration(inv@.msg) || role != Role::NativeProvider || response@.error is Some
            ==> r is Some,
        !is_configuration(inv@.msg) && role == Role::NativeProvider && response@.error is None && (
        inv@.operation == "BindActor"@ || inv@.operation == "RemoveActor"@) ==> r is None,
        inv@.operation != "BindActor"@ && inv@.operation != "RemoveActor"@ ==> r is Some
            && r->0 is Nothing,
{
}

/// Each binding to the provider that other hosts know of is made again, in their order: for
/// the actor, with the values, and to the provider that it names.
pub proof fn bindings_are_made_again(
    hostkey: &HostKey,
    blist: &Vec<Binding>,
    capid: &str,
    binding_name: &str,
    r: Vec<(String, Invocation)>,
)
    requires
        call_ensures(reestablish_bindings, (hostkey, blist, capid, binding_name), r),
    ensures
        forall|i: int|
            0 <= i < r@.len() ==> (#[trigger] r@[i]).1@.operation == "BindActor"@ && r@[i].1@.target
                == (EntityView::Capability { capid: capid@, binding: binding_name@ })
                && r@[i].1@.origin == EntityView::Actor("system"@) && r@[i].1@.host_id
                == hostkey.spec_public(),
        forall|b: Binding|
            blist@.contains(b) && (#[trigger] b@).capability_id == capid@ && b@.binding_name
                == binding_name@ ==> exists|i: int|
                0 <= i < r@.len() && (#[trigger] r@[i]).0@ == b@.actor,
        r@.len() <= blist@.len(),
{
    let p = to_provider(capid@, binding_name@);
    let known = blist@.filter(p);
    blist@.lemma_filter_len(p);
    assert forall|b: Binding|
        blist@.contains(b) && (#[trigger] b@).capability_id == capid@ && b@.binding_name
            == binding_name@ implies exists|i: int|
        0 <= i < r@.len() && (#[trigger] r@[i]).0@ == b@.actor by {
        let j = choose|j: int| 0 <= j < blist@.len() && blist@[j] == b;
        blist@.lemma_filter_contains(p, j);
        let i = choose|i: int| 0 <= i < known.len() && known[i] == b;
        assert(r@[i].0@ == b@.actor);
    }
}

/// What is made again is a binding to the provider that other hosts know of, for its actor
/// and with its values.
pub proof fn only_known_bindings_are_made_again(
    hostkey: &HostKey,
    blist: &Vec<Binding>,
    capid: &str,
    binding_name: &str,
    i: int,
    r: Vec<(String, Invocation)>,
)
    requires
        call_ensures(reestablish_bindings, (hostkey, blist, capid, binding_name), r),
        0 <= i < r@.len(),
    ensures
        exists|b: Binding| #[trigger]
            blist@.contains(b) && b@.capability_id == capid@ && b@.binding_name == binding_name@
                && r@[i].0@ == b@.actor && carries(
                r@[i].1@.msg,
                (ConfigurationView { module: b@.actor, values: b@.configuration }),
            ),
{
    let p = to_provider(capid@, binding_name@);
    let known = blist@.filter(p);
    blist@.lemma_filter_pred(p, i);
    assert(known.contains(known[i]));
    blist@.lemma_filter_contains_rev(p, known[i]);
    assert(r@[i].0@ == known[i]@.actor);
}

/// To start a provider's thread notes the subject that belongs to it and to the namespace, and
/// changes nothing else. To stop the provider, native or portable, undoes this.
pub proof fn provider_threads_start<A>(
    host: &mut Host<A>,
    capid: &str,
    binding: &str,
    r: ProviderStart,
)
    requires
        call_ensures(Host::<A>::start_provider, (host, capid, binding), r),
    ensures
        r.subject@ == provider_subject_of(text_view(old(host).ns), capid@, binding@),
        forall|s: Seq<char>| #[trigger]
            final(host).terminators@.contains_key(s) <==> s == r.subject@
                || old(host).terminators@.contains_key(s),
        r.loaded@ == (EventView::ProviderLoaded {
            capid: capid@,
            instance_name: binding@,
            host: old(host).key.spec_public(),
        }),
        final(host).claims == old(host).claims,
        final(host).caps == old(host).caps,
        final(host).bindings == old(host).bindings,
        final(host).image_map == old(host).image_map,
        final(host).labels == old(host).labels,
        final(host).ns == old(host).ns,
        final(host).key == old(host).key,
{
}

/// A portable provider that describes itself is started under what it calls itself, and under
/// the name "default" where it is given none. One that does not is not started.
pub proof fn portable_providers_start<A>(
    host: &mut Host<A>,
    descriptor: Option<&CapabilityDescriptor>,
    binding: Option<&str>,
    r: Option<ProviderStart>,
)
    requires
        call_ensures(Host::<A>::add_capability, (host, descriptor, binding), r),
    ensures
        r is Some <==> descriptor is Some,
        descriptor is None ==> *final(host) == *old(host),
        descriptor is Some && binding is Some ==> r->0.subject@ == provider_subject_of(
            text_view(old(host).ns),
            descriptor->0@.id,
            binding->0@,
        ),
        descriptor is Some && binding is None ==> r->0.subject@ == provider_subject_of(
            text_view(old(host).ns),
            descriptor->0@.id,
            "default"@,
        ),
        descriptor is Some ==> forall|s: Seq<char>| #[trigger]
            final(host).terminators@.contains_key(s) <==> s == r->0.subject@
                || old(host).terminators@.contains_key(s),
        final(host).caps == old(host).caps,
        final(host).claims == old(host).claims,
        final(host).bindings == old(host).bindings,
{
}

/// To stop a portable provider forgets it, its thread, and every binding to it. Nothing else
/// is forgotten: not what has another capability ID, nor what has another name.
pub proof fn portable_providers_stop<A>(host: &mut Host<A>, capid: &str, binding: &str, r: String)
    requires
        call_ensures(Host::<A>::stop_portable_capability, (host, capid, binding), r),
    ensures
        r@ == provider_subject_of(text_view(old(host).ns), capid@, binding@),
        forall|s: Seq<char>| #[trigger]
            final(host).terminators@.contains_key(s) <==> s != r@
                && old(host).terminators@.contains_key(s),
        forall|name: Seq<char>, id: Seq<char>| #[trigger]
            final(host).caps@.contains_key((name, id)) <==> old(host).caps@.contains_key((name, id))
                && !(name == binding@ && id == capid@),
        forall|actor: Seq<char>, id: Seq<char>, name: Seq<char>| #[trigger]
            final(host).bindings@.contains_key((actor, id, name))
                <==> old(host).bindings@.contains_key((actor, id, name)) && !(name == binding@
                && id == capid@),
        forall|k: (Seq<char>, Seq<char>, Seq<char>)| #[trigger]
            final(host).bindings@.contains_key(k) ==> final(host).bindings@[k]
                == old(host).bindings@[k],
        final(host).claims == old(host).claims,
        final(host).labels == old(host).labels,
        final(host).ns == old(host).ns,
{
}

/// To stop a native provider forgets it, its thread, and every binding to it, and nothing else.
/// The event names the provider and the host.
pub proof fn native_providers_stop<A>(
    host: &mut Host<A>,
    capid: &str,
    binding: &str,
    r: ProviderStop,
)
    requires
        call_ensures(Host::<A>::stop_native_capability, (host, capid, binding), r),
    ensures
        r.subject@ == provider_subject_of(text_view(old(host).ns), capid@, binding@),
        r.removed@ == (EventView::ProviderRemoved {
            capid: capid@,
            instance_name: binding@,
            host: old(host).key.spec_public(),
        }),
        forall|s: Seq<char>| #[trigger]
            final(host).terminators@.contains_key(s) <==> s != r.subject@
                && old(host).terminators@.contains_key(s),
        forall|name: Seq<char>, id: Seq<char>| #[trigger]
            final(host).caps@.contains_key((name, id)) <==> old(host).caps@.contains_key((name, id))
                && !(name == binding@ && id == capid@),
        forall|actor: Seq<char>, id: Seq<char>, name: Seq<char>| #[trigger]
            final(host).bindings@.contains_key((actor, id, name))
                <==> old(host).bindings@.contains_key((actor, id, name)) && !(name == binding@
                && id == capid@),
        forall|k: (Seq<char>, Seq<char>, Seq<char>)| #[trigger]
            final(host).bindings@.contains_key(k) ==> final(host).bindings@[k]
                == old(host).bindings@[k],
        final(host).claims == old(host).claims,
        final(host).labels == old(host).labels,
        final(host).ns == old(host).ns,
{
}

/// The private conversations that end with a native provider are those of the bindings to the
/// same capability that are left.
pub proof fn conversations_end_with_provider<A>(
    host: &mut Host<A>,
    capid: &str,
    binding: &str,
    r: ProviderStop,
)
    requires
        call_ensures(Host::<A>::stop_native_capability, (host, capid, binding), r),
    ensures
        forall|actor: Seq<char>, name: Seq<char>| #[trigger]
            final(host).bindings@.contains_key((actor, capid@, name)) ==> texts(
                r.private@,
            ).contains(bound_subject_of(text_view(old(host).ns), capid@, name, actor)),
{
    let h = *final(host);
    let p = of_capid(capid@);
    let kept = h.bindings.keys().filter(p);
    let ns = text_view(old(host).ns);
    assert forall|actor: Seq<char>, name: Seq<char>| #[trigger]
        h.bindings@.contains_key((actor, capid@, name)) implies texts(r.private@).contains(
        bound_subject_of(ns, capid@, name, actor),
    ) by {
        let k = (actor, capid@, name);
        assert(h.bindings.keys().contains(k));
        let j = choose|j: int| 0 <= j < h.bindings.keys().len() && h.bindings.keys()[j] == k;
        h.bindings.keys().lemma_filter_contains(p, j);
        let i = choose|i: int| 0 <= i < kept.len() && kept[i] == k;
        assert(texts(r.private@)[i] == private_subject(ns, k));
    }
}

/// No private conversation ends with a native provider but those of the bindings to the same
/// capability that are left.
pub proof fn no_other_conversation_ends<A>(
    host: &mut Host<A>,
    capid: &str,
    binding: &str,
    i: int,
    r: ProviderStop,
)
    requires
        call_ensures(Host::<A>::stop_native_capability, (host, capid, binding), r),
        0 <= i < r.private@.len(),
    ensures
        exists|actor: Seq<char>, name: Seq<char>| #[trigger]
            final(host).bindings@.contains_key((actor, capid@, name)) && r.private@[i]@
                == bound_subject_of(text_view(old(host).ns), capid@, name, actor),
{
    let h = *final(host);
    let p = of_capid(capid@);
    let kept = h.bindings.keys().filter(p);
    assert(texts(r.private@).len() == kept.len());
    assert(texts(r.private@)[i] == r.private@[i]@);
    h.bindings.keys().lemma_filter_pred(p, i);
    assert(kept.contains(kept[i]));
    h.bindings.keys().lemma_filter_contains_rev(p, kept[i]);
    let k = kept[i];
    assert(h.bindings@.contains_key((k.0, capid@, k.2)));
}

/// The thread for the private conversations of an actor with a provider is noted under the
/// subject of the three of them. To stop it forgets this subject and the one binding.
pub proof fn conversations_start_and_stop<A>(
    host: &mut Host<A>,
    later: &mut Host<A>,
    capid: &str,
    binding: &str,
    actor: &str,
    subject: String,
    stop: (String, BusEvent),
)
    requires
        call_ensures(Host::<A>::start_bound, (host, capid, binding, actor), subject),
        call_ensures(Host::<A>::stop_bound, (later, capid, binding, actor), stop),
        *old(later) == *final(host),
    ensures
        subject@ == bound_subject_of(text_view(old(host).ns), capid@, binding@, actor@),
        stop.0@ == subject@,
        final(host).terminators@.contains_key(subject@),
        !final(later).terminators@.contains_key(subject@),
        forall|s: Seq<char>|
            s != subject@ ==> (#[trigger] final(later).terminators@.contains_key(s)
                <==> old(host).terminators@.contains_key(s)),
        forall|s: Seq<char>|
            s != subject@ ==> (#[trigger] final(host).terminators@.contains_key(s)
                <==> old(host).terminators@.contains_key(s)),
        final(host).bindings == old(host).bindings,
        forall|a: Seq<char>, id: Seq<char>, name: Seq<char>| #[trigger]
            final(later).bindings@.contains_key((a, id, name))
                <==> old(host).bindings@.contains_key((a, id, name)) && !(a == actor@ && id
                == capid@ && name
                == binding@),
        forall|k: (Seq<char>, Seq<char>, Seq<char>)| #[trigger]
            final(later).bindings@.contains_key(k) ==> final(later).bindings@[k]
                == old(host).bindings@[k],
        final(later).caps == old(host).caps,
        final(later).claims == old(host).claims,
        final(later).labels == old(host).labels,
        stop.1@ == (EventView::ProviderRemoved {
            capid: capid@,
            instance_name: binding@,
            host: old(host).key.spec_public(),
        }),
{
}

/// The actor that a configuration is for is the one that it names. Bytes that are none name none.
pub proof fn configurations_name_actors(
    bytes: &[u8],
    named: String,
    tried: Option<String>,
)
    requires
        call_ensures(try_actor_from_config, (bytes,), tried),
        is_configuration(bytes@) ==> call_ensures(actor_from_config, (bytes,), named),
    ensures
        tried is Some <==> is_configuration(bytes@),
        tried is Some ==> tried->0@ == decoded_configuration(bytes@)->Ok_0.module && named@
            == tried->0@,
{
}

/// What a provider says of itself is forgotten under its own name and capability ID alone.
pub proof fn providers_are_forgotten<A>(host: &mut Host<A>, capid: &str, binding: &str)
    requires
        call_ensures(Host::<A>::remove_cap, (host, capid, binding), ()),
    ensures
        forall|name: Seq<char>, id: Seq<char>| #[trigger]
            final(host).caps@.contains_key((name, id)) <==> old(host).caps@.contains_key((name, id))
                && !(name == binding@ && id == capid@),
        forall|k: (Seq<char>, Seq<char>)| #[trigger]
            final(host).caps@.contains_key(k) ==> final(host).caps@[k] == old(host).caps@[k],
        final(host).claims == old(host).claims && final(host).bindings == old(host).bindings
            && final(host).terminators == old(host).terminators,
{
}

/// The thread for private conversations is told to stop on the subject that it was noted under.
pub proof fn conversations_are_told_to_stop<A>(
    host: &mut Host<A>,
    after: &Host<A>,
    capid: &str,
    binding: &str,
    actor: &str,
    subject: String,
    told: String,
)
    requires
        call_ensures(Host::<A>::start_bound, (host, capid, binding, actor), subject),
        *after == *final(host),
        call_ensures(Host::<A>::signal_bound, (after, capid, binding, actor), told),
    ensures
        told@ == subject@,
{
}

/// Whether or not its message may be anything, what follows a response is the same.
pub proof fn both_ways_to_follow_up_agree(
    role: Role,
    inv: &Invocation,
    response: &InvocationResponse,
    r: FollowUp,
    tried: Option<FollowUp>,
)
    requires
        call_ensures(follow_up, (role, inv, response), r),
        call_ensures(try_follow_up, (role, inv, response), tried),
    ensures
        tried is Some ==> tried->0@ == r@,
        response@.error is Some ==> r is Nothing,
        response@.error is None && role == Role::NativeProvider && inv@.operation == "BindActor"@
            ==> r is StartBound,
        response@.error is None && role == Role::PortableProvider && inv@.operation == "BindActor"@
            ==> r is StartBoundPortable,
{
}

} // verus!
