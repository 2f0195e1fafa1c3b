//! What a host holds, and how it comes to hold it.
use vstd::prelude::*;

use crate::actor::Actor;
use crate::authz::{enforcement_is_bounded, failure_of, Authorizer, DefaultAuthorizer};
use crate::bus::lattice::{discover_claims, BusEvent, EventView, HostActors};
use crate::bus::{
    actor_subject, actor_subject_of, actors_have_own_subjects, ns_view, provider_subject,
    provider_subject_of,
};
use crate::claims::{
    actor_verdict, checkable, decoded_actor, embedded_token, text_view, ActorMetadata, Claims,
    TokenView,
};
use crate::codec::{decoded_configuration, text_map, CapabilityDescriptor};
use crate::entity::EntityView;
use crate::errors::{Error, Failure};
use crate::inthost::{Invocation, InvocationResponse};
use crate::laws::bonds::lemma_filter_distinct;
use crate::runtime::{
    detect_core_host_labels, has_tags, judge_binding, ActorStart, BindRequest, Host,
    HostBuilder, Shutdown,
};
use crate::table::Table;
use crate::text::texts;

verus! {

/// A host has the three labels that say what it runs on, each with its own value, and no other
/// ones to begin with.
pub proof fn hosts_know_what_they_run_on(
    arch: &str,
    os: &str,
    family: &str,
    r: Table<String, String>,
)
    requires
        call_ensures(detect_core_host_labels, (arch, os, family), r),
    ensures
        r@.contains_key("hostcore.arch"@) && r@["hostcore.arch"@]@ == arch@,
        r@.contains_key("hostcore.os"@) && r@["hostcore.os"@]@ == os@,
        r@.contains_key("hostcore.osfamily"@) && r@["hostcore.osfamily"@]@ == family@,
        forall|k: Seq<char>| #[trigger]
            r@.contains_key(k) ==> k == "hostcore.arch"@ || k == "hostcore.os"@ || k
                == "hostcore.osfamily"@,
{
    reveal_strlit("hostcore.arch");
    reveal_strlit("hostcore.os");
    reveal_strlit("hostcore.osfamily");
    assert("hostcore.arch"@.len() == 13 && "hostcore.os"@.len() == 11 && "hostcore.osfamily"@.len()
        == 17);
    let m = text_map(r@);
    assert forall|k: Seq<char>| #[trigger] r@.contains_key(k) <==> m.contains_key(k) by {}
    assert(m["hostcore.arch"@] == r@["hostcore.arch"@]@);
    assert(m["hostcore.os"@] == r@["hostcore.os"@]@);
    assert(m["hostcore.osfamily"@] == r@["hostcore.osfamily"@]@);
}

/// A label that is set while a host is built is there afterwards, with the value that it was
/// first given. No other label changes.
pub proof fn labels_are_set_once<A: Authorizer>(
    b: HostBuilder<A>,
    key: &str,
    value: &str,
    r: HostBuilder<A>,
)
    requires
        call_ensures(HostBuilder::<A>::with_label, (b, key, value), r),
    ensures
        r.labels@.contains_key(key@),
        b.labels@.contains_key(key@) ==> r.labels@[key@]@ == b.labels@[key@]@,
        !b.labels@.contains_key(key@) ==> r.labels@[key@]@ == value@,
        forall|k: Seq<char>|
            k != key@ ==> (#[trigger] r.labels@.contains_key(k) <==> b.labels@.contains_key(k)),
        forall|k: Seq<char>|
            k != key@ && #[trigger] r.labels@.contains_key(k) ==> r.labels@[k]@ == b.labels@[k]@,
        r.ns == b.ns && r.authorizer == b.authorizer,
{
    let m = text_map(r.labels@);
    let n = text_map(b.labels@);
    assert forall|k: Seq<char>| #[trigger] r.labels@.contains_key(k) <==> m.contains_key(k) by {}
    assert forall|k: Seq<char>| #[trigger] b.labels@.contains_key(k) <==> n.contains_key(k) by {}
    assert forall|k: Seq<char>| #[trigger] r.labels@.contains_key(k) implies m[k]
        == r.labels@[k]@ by {}
    assert forall|k: Seq<char>| #[trigger] b.labels@.contains_key(k) implies n[k]
        == b.labels@[k]@ by {}
    assert(m.contains_key(key@) && m[key@] == r.labels@[key@]@);
}

/// The namespace of a host is the one that it is given, in small letters.
pub proof fn namespaces_are_in_small_letters<A: Authorizer>(
    b: HostBuilder<A>,
    ns: &str,
    i: int,
    r: HostBuilder<A>,
)
    requires
        call_ensures(HostBuilder::<A>::with_lattice_namespace, (b, ns), r),
        forall|j: int| 0 <= j < ns@.len() ==> (#[trigger] ns@[j] as u32) < 128,
        0 <= i < ns@.len(),
    ensures
        r.ns is Some,
        r.ns->0@.len() == ns@.len(),
        'A' <= ns@[i] <= 'Z' ==> r.ns->0@[i] as u32 == ns@[i] as u32 + 32,
        !('A' <= ns@[i] <= 'Z') ==> r.ns->0@[i] == ns@[i],
        r.labels == b.labels && r.authorizer == b.authorizer,
{
    assert(crate::text::ascii(ns@));
}

/// A host that was just built has what the builder was given, no actors, no bindings, no threads,
/// and one provider: the one for extras, under the default name.
pub proof fn new_hosts_hold_extras<A: Authorizer>(b: HostBuilder<A>, r: Host<A>)
    requires
        call_ensures(HostBuilder::<A>::build, (b,), r),
    ensures
        r.labels == b.labels && r.ns == b.ns && r.authorizer == b.authorizer,
        forall|k: Seq<char>| !(#[trigger] r.claims@.contains_key(k)),
        forall|k: (Seq<char>, Seq<char>, Seq<char>)| !(#[trigger] r.bindings@.contains_key(k)),
        forall|k: Seq<char>| !(#[trigger] r.terminators@.contains_key(k)),
        forall|k: Seq<char>| !(#[trigger] r.image_map@.contains_key(k)),
        r.caps@.contains_key(("default"@, "wascc:extras"@)),
        forall|k: (Seq<char>, Seq<char>)| #[trigger]
            r.caps@.contains_key(k) ==> k == ("default"@, "wascc:extras"@),
        r.caps@[("default"@, "wascc:extras"@)]@.id == "wascc:extras"@,
        r.key.spec_public().len() == 56 && r.key.spec_public()[0] == 'N',
{
    assert forall|k: (Seq<char>, Seq<char>)| #[trigger] r.caps@.contains_key(k) <==> k == (
        "default"@,
        "wascc:extras"@,
    ) by {
        assert(r.caps@.dom().contains(k) <==> set![("default"@, "wascc:extras"@)].contains(k));
    }
}

/// An actor that passes validation and that the authorizer allows is admitted, unless it is in
/// the host already; no other actor is. The first reason against it is what the error says.
pub proof fn actors_are_admitted<A>(
    host: &mut Host<A>,
    actor: &Actor,
    validation: Result<(), Error>,
    allowed: bool,
    r: Result<ActorStart, Error>,
)
    requires
        call_ensures(Host::<A>::admit_actor, (host, actor, validation, allowed), r),
    ensures
        ({
            let pk = actor.spec_claims().subject;
            let there = old(host).claims@.contains_key(pk);
            &&& r is Ok <==> !there && validation is Ok && allowed
            &&& there ==> r->Err_0@ is MiscHost
            &&& !there && validation is Err ==> r->Err_0@ == validation->Err_0@
            &&& !there && validation is Ok && !allowed ==> r->Err_0@ == Failure::Authorization(
                "Authorization hook denied access to module"@,
            )
            &&& r is Err ==> *final(host) == *old(host)
        }),
{
}

/// An actor that was admitted is in the host: with its claims, and with the subject on which its
/// thread is told to stop. Nothing else changes.
pub proof fn admitted_actors_are_there<A>(
    host: &mut Host<A>,
    actor: &Actor,
    validation: Result<(), Error>,
    allowed: bool,
    r: Result<ActorStart, Error>,
)
    requires
        call_ensures(Host::<A>::admit_actor, (host, actor, validation, allowed), r),
        r is Ok,
    ensures
        ({
            let c = actor.spec_claims();
            let start = r->Ok_0;
            let id = old(host).key.spec_public();
            &&& final(host).claims@.contains_key(c.subject)
            &&& final(host).claims@[c.subject]@ == c
            &&& forall|k: Seq<char>|
                k != c.subject ==> (#[trigger] final(host).claims@.contains_key(k)
                    <==> old(host).claims@.contains_key(k))
            &&& forall|k: Seq<char>|
                k != c.subject && #[trigger] final(host).claims@.contains_key(k)
                    ==> final(host).claims@[k] == old(host).claims@[k]
            &&& start.subject@ == actor_subject_of(text_view(old(host).ns), c.subject)
            &&& forall|s: Seq<char>| #[trigger]
                final(host).terminators@.contains_key(s) <==> s == start.subject@
                    || old(host).terminators@.contains_key(s)
            &&& start.starting@ == (EventView::ActorStarting { actor: c.subject, host: id })
            &&& start.started@ == (EventView::ActorStarted { actor: c.subject, host: id })
            &&& start.binds_extras <==> c.metadata is Some && c.metadata->0.caps is Some
                && c.metadata->0.caps->0.contains("wascc:extras"@)
            &&& final(host).bindings == old(host).bindings
            &&& final(host).caps == old(host).caps
            &&& final(host).image_map == old(host).image_map
            &&& final(host).labels == old(host).labels
            &&& final(host).ns == old(host).ns
            &&& final(host).key == old(host).key
        }),
{
    let c = actor.spec_claims();
    assert forall|k: Seq<char>| k != c.subject implies (
    #[trigger] final(host).claims@.contains_key(k) <==> old(host).claims@.contains_key(k)) by {
        assert(final(host).claims@.dom().contains(k) <==> old(host).claims@.dom().insert(
            c.subject,
        ).contains(k));
    }
    assert(final(host).claims@.dom().contains(c.subject));
    assert forall|k: Seq<char>|
        k != c.subject && #[trigger] final(host).claims@.contains_key(k) implies
        final(host).claims@[k] == old(host).claims@[k] by {
        assert(old(host).claims@.contains_key(k));
    }
}

/// Whatever the authorizer says, an actor is added only where its token has a valid signature,
/// and never where one with the same public key is in the host. The host then holds it, and the
/// rest stays as it was; where it is not added, nothing changes.
pub proof fn only_signed_actors_are_added<A: Authorizer>(
    host: &mut Host<A>,
    actor: &Actor,
    r: Result<ActorStart, Error>,
)
    requires
        call_ensures(Host::<A>::add_actor, (host, actor), r),
    ensures
        r is Ok ==> actor_verdict(actor.spec_token().jwt) == Some(true),
        r is Ok ==> !old(host).claims@.contains_key(actor.spec_claims().subject),
        r is Ok ==> final(host).claims@.contains_key(actor.spec_claims().subject)
            && final(host).claims@[actor.spec_claims().subject]@ == actor.spec_claims(),
        r is Ok ==> final(host).terminators@.contains_key(
            actor_subject_of(text_view(old(host).ns), actor.spec_claims().subject),
        ),
        old(host).claims@.contains_key(actor.spec_claims().subject) ==> r is Err
            && r->Err_0@ is MiscHost,
        r is Err ==> *final(host) == *old(host),
        final(host).caps == old(host).caps && final(host).bindings == old(host).bindings,
{
    if r is Ok {
        assert(final(host).claims@.dom().contains(actor.spec_claims().subject));
        enforcement_is_bounded(actor.spec_token().jwt, None);
    }
}

/// An actor whose token has passed is added where the authorizer allows it and is refused where
/// it does not: what it says of the claims decides.
pub proof fn authorizers_decide_on_signed_actors<A: Authorizer>(
    host: &mut Host<A>,
    actor: &Actor,
    answer: bool,
    r: Result<ActorStart, Error>,
)
    requires
        call_ensures(Host::<A>::add_actor, (host, actor), r),
        !old(host).claims@.contains_key(actor.spec_claims().subject),
        actor_verdict(actor.spec_token().jwt) == Some(true),
        crate::claims::decoded_actor(actor.spec_token().jwt)->0.expires is None,
        crate::claims::decoded_actor(actor.spec_token().jwt)->0.not_before is None,
        forall|c: Claims<ActorMetadata>, a: bool|
            c@ == actor.spec_claims() && #[trigger] call_ensures(
                A::can_load,
                (&old(host).authorizer, &c),
                a,
            ) ==> a == answer,
    ensures
        r is Ok <==> answer,
        !answer ==> r->Err_0@ == Failure::Authorization(
            "Authorization hook denied access to module"@,
        ),
{
    let jwt = actor.spec_token().jwt;
    let c = actor.spec_claims();
    let failure = failure_of(r);
    let validation = choose|validation: Option<Failure>| #[trigger]
        crate::authz::enforcement_outcome(jwt, validation) && (if validation is Some {
            failure == validation
        } else {
            exists|claims: Claims<ActorMetadata>, allowed: bool|
                {
                    &&& claims@ == c
                    &&& #[trigger] call_ensures(
                        A::can_load,
                        (&old(host).authorizer, &claims),
                        allowed,
                    )
                    &&& failure == crate::runtime::admission_failure(
                        old(host).claims@,
                        c.subject,
                        None,
                        allowed,
                    )
                }
        });
    enforcement_is_bounded(jwt, validation);
}

/// To stop an actor takes it out of the host: its claims, its thread and, where it came from a
/// registry, its reference. No other actor is touched.
pub proof fn stopped_actors_are_gone<A>(
    host: &mut Host<A>,
    pk: &str,
    imgref: Option<String>,
    r: (String, BusEvent),
)
    requires
        call_ensures(Host::<A>::stop_actor, (host, pk, imgref), r),
    ensures
        r.0@ == actor_subject_of(text_view(old(host).ns), pk@),
        r.1@ == (EventView::ActorStopped { actor: pk@, host: old(host).key.spec_public() }),
        !final(host).claims@.contains_key(pk@),
        !final(host).terminators@.contains_key(r.0@),
        imgref is Some ==> !final(host).image_map@.contains_key(imgref->0@),
        forall|k: Seq<char>|
            k != pk@ ==> (#[trigger] final(host).claims@.contains_key(k)
                <==> old(host).claims@.contains_key(k)),
        forall|k: Seq<char>|
            k != pk@ && #[trigger] final(host).claims@.contains_key(k) ==> final(host).claims@[k]
                == old(host).claims@[k],
        forall|k: Seq<char>|
            k != pk@ && old(host).terminators@.contains_key(
                #[trigger] actor_subject_of(text_view(old(host).ns), k),
            ) ==> final(host).terminators@.contains_key(
                actor_subject_of(text_view(old(host).ns), k),
            ),
        forall|k: Seq<char>|
            (imgref is None || k != imgref->0@) ==> (
            #[trigger] final(host).image_map@.contains_key(k)
                <==> old(host).image_map@.contains_key(k)),
        final(host).bindings == old(host).bindings,
        final(host).caps == old(host).caps,
        final(host).labels == old(host).labels,
{
    assert forall|k: Seq<char>|
        k != pk@ && old(host).terminators@.contains_key(
            #[trigger] actor_subject_of(text_view(old(host).ns), k),
        ) implies final(host).terminators@.contains_key(
        actor_subject_of(text_view(old(host).ns), k),
    ) by {
        actors_have_own_subjects(text_view(old(host).ns), k, pk@);
    }
}

/// An actor and a provider are told to stop, and an actor is called, on their own subjects. The
/// actor has to be in the host to be called, and the provider's thread has to run.
pub proof fn threads_are_told_on_their_subjects<A>(
    host: &Host<A>,
    ns: Option<&str>,
    pk: &str,
    capid: &str,
    binding: Option<String>,
    name: &str,
    operation: &str,
    msg: &[u8],
    stop: String,
    provider: Result<String, Error>,
    call: Result<(String, Invocation), Error>,
    a: String,
    p: String,
)
    requires
        ns_view(ns) == text_view(host.ns),
        name@ == (if binding is Some {
            binding->0@
        } else {
            "default"@
        }),
        call_ensures(actor_subject, (ns, pk), a),
        call_ensures(provider_subject, (ns, capid, name), p),
        call_ensures(Host::<A>::remove_actor, (host, pk), stop),
        call_ensures(Host::<A>::remove_native_capability, (host, capid, binding), provider),
        call_ensures(Host::<A>::call_actor, (host, pk, operation, msg), call),
    ensures
        stop@ == a@,
        provider is Ok <==> host.terminators@.contains_key(p@),
        provider is Ok ==> provider->Ok_0@ == p@,
        provider is Err ==> provider->Err_0@ == Failure::MiscHost("No such capability"@),
        call is Ok <==> host.claims@.contains_key(pk@),
        call is Err ==> call->Err_0@ == Failure::MiscHost("No such actor"@),
        call is Ok ==> call->Ok_0.0@ == a@ && call->Ok_0.1@.target == EntityView::Actor(pk@)
            && call->Ok_0.1@.origin == EntityView::Actor("system"@) && call->Ok_0.1@.operation
            == operation@ && call->Ok_0.1@.msg == msg@,
{
}

/// What the caller of an actor gets is the message of the reply, or the error in it.
pub proof fn calls_get_their_reply<A>(
    reply: Result<InvocationResponse, Error>,
    call: Result<Vec<u8>, Error>,
    removal: Result<(), Error>,
    replacement: Result<(), Error>,
)
    requires
        call_ensures(Host::<A>::finish_call_actor, (reply,), call),
        call_ensures(Host::<A>::finish_remove_binding, (reply,), removal),
        call_ensures(Host::<A>::finish_replace, (reply,), replacement),
    ensures
        call is Ok <==> reply is Ok && reply->Ok_0@.error is None,
        call is Ok ==> call->Ok_0@ == reply->Ok_0@.msg,
        reply is Ok && call is Err ==> call->Err_0@ == Failure::HostCallFailure(
            reply->Ok_0@.error->0,
        ),
        reply is Err ==> call->Err_0@ == reply->Err_0@,
        removal is Ok <==> reply is Ok && reply->Ok_0@.error is None,
        reply is Ok && removal is Err ==> removal->Err_0@ == Failure::HostCallFailure(
            "Failed to remove binding: "@ + reply->Ok_0@.error->0,
        ),
        reply is Err ==> removal->Err_0@ == reply->Err_0@,
        replacement is Ok <==> reply is Ok,
        reply is Err ==> replacement->Err_0@ == reply->Err_0@,
{
}

/// An actor is replaced by sending it its new bytes, on its own subject.
pub proof fn live_updates_go_to_their_actor<A>(
    host: &Host<A>,
    new_actor: &Actor,
    r: (String, Invocation),
)
    requires
        call_ensures(Host::<A>::replace_actor, (host, new_actor), r),
    ensures
        r.0@ == actor_subject_of(text_view(host.ns), new_actor.spec_claims().subject),
        r.1@.target == EntityView::Actor(new_actor.spec_claims().subject),
        r.1@.origin == EntityView::Actor("system"@),
        r.1@.operation == "PerformLiveUpdate"@,
        r.1@.msg == new_actor.spec_bytes(),
        r.1@.host_id == host.key.spec_public(),
{
}

/// A provider is added exactly where there is none with the same capability ID under the same
/// name. Then the host holds it, and nothing else has changed.
pub proof fn providers_are_added_once<A>(
    host: &mut Host<A>,
    name: &str,
    d: &CapabilityDescriptor,
    r: Result<(), Error>,
)
    requires
        call_ensures(Host::<A>::add_native_capability, (host, name, d), r),
    ensures
        r is Ok <==> !old(host).caps@.contains_key((name@, d@.id)),
        r is Err ==> r->Err_0@ is CapabilityProvider,
        r is Err ==> *final(host) == *old(host),
        final(host).caps@.contains_key((name@, d@.id)),
        r is Ok ==> final(host).caps@[(name@, d@.id)]@ == d@,
        forall|k: (Seq<char>, Seq<char>)|
            k != (name@, d@.id) ==> (#[trigger] final(host).caps@.contains_key(k)
                <==> old(host).caps@.contains_key(k)),
        forall|k: (Seq<char>, Seq<char>)|
            k != (name@, d@.id) && #[trigger] final(host).caps@.contains_key(k)
                ==> final(host).caps@[k] == old(host).caps@[k],
        final(host).claims == old(host).claims,
        final(host).bindings == old(host).bindings,
        final(host).terminators == old(host).terminators,
{
    let key = (name@, d@.id);
    if r is Ok {
        assert forall|k: (Seq<char>, Seq<char>)| #[trigger] final(host).caps@.contains_key(k)
            <==> k == key || old(host).caps@.contains_key(k) by {
            assert(final(host).caps@.dom().contains(k) <==> old(host).caps@.dom().insert(
                key,
            ).contains(k));
        }
        assert(final(host).caps@.contains_key(key));
        assert forall|k: (Seq<char>, Seq<char>)|
            k != key && #[trigger] final(host).caps@.contains_key(k) implies final(host).caps@[k]
            == old(host).caps@[k] by {
            assert(old(host).caps@.contains_key(k));
        }
    }
}

/// An actor may be bound exactly where its claims are known, let it use the capability or are
/// its own, and the authorizer allows it.
pub proof fn bindings_need_attestation(
    claims: &Option<Claims<ActorMetadata>>,
    actor: &str,
    capid: &str,
    allowed: bool,
    r: Result<(), Error>,
)
    requires
        call_ensures(judge_binding, (claims, actor, capid, allowed), r),
        *claims is Some ==> (*claims)->0@.metadata is Some,
    ensures
        r is Ok <==> *claims is Some && allowed && ((*claims)->0@.subject == capid@ || (
        (*claims)->0@.metadata->0.caps is Some && (*claims)->0@.metadata->0.caps->0.contains(
            capid@,
        ))),
        *claims is None ==> r->Err_0@ == Failure::MiscHost("Attempted to bind non-existent actor"@),
        *claims is Some && r is Err ==> r->Err_0@ == Failure::Authorization(
            "Unauthorized binding: actor "@ + actor@ + " is not authorized to use capability "@
                + capid@ + "."@,
        ),
{
}

/// A binding is requested only for an actor that is known and whose claims let it use the
/// capability. The request goes to the provider, under the name that is given or the default one,
/// and names the actor; where it is the actor itself that is configured, it goes to the actor.
pub proof fn bindings_are_requested<A: Authorizer>(
    host: &Host<A>,
    hosts: Option<&Vec<HostActors>>,
    actor: &str,
    capid: &str,
    binding_name: Option<String>,
    config: &Table<String, String>,
    known: Option<Claims<ActorMetadata>>,
    r: Result<BindRequest, Error>,
)
    requires
        call_ensures(Host::<A>::set_binding, (host, hosts, actor, capid, binding_name, config), r),
        call_ensures(discover_claims, (hosts, &host.claims, actor), known),
    ensures
        known is None ==> r is Err && r->Err_0@ is MiscHost,
        known is Some && r is Err ==> r->Err_0@ is Authorization,
        r is Ok ==> known is Some && (known->0@.subject == capid@ || (known->0@.metadata is Some
            && known->0@.metadata->0.caps is Some && known->0@.metadata->0.caps->0.contains(
            capid@,
        ))),
        r is Ok ==> ({
            let q = r->Ok_0;
            let name = if binding_name is Some {
                binding_name->0@
            } else {
                "default"@
            };
            let own = (actor@ == capid@ || actor@ == "system"@) && capid@.len() > 0 && capid@[0]
                == 'M';
            &&& q.binding@ == name
            &&& own ==> q.subject@ == actor_subject_of(text_view(host.ns), actor@)
            &&& !own ==> q.subject@ == provider_subject_of(text_view(host.ns), capid@, name)
            &&& q.invocation@.operation == "BindActor"@
            &&& q.invocation@.origin == EntityView::Actor("system"@)
            &&& q.invocation@.target == (EntityView::Capability { capid: capid@, binding: name })
            &&& q.invocation@.host_id == host.key.spec_public()
        }),
{
    reveal_strlit("M");
    if capid@.len() > 0 && capid@[0] == 'M' {
        assert(capid@.subrange(0, 1) =~= "M"@);
    }
    if crate::text::begins(capid@, "M"@) {
        assert(capid@.subrange(0, 1)[0] == "M"@[0]);
    }
}

/// Where the authorizer allows it, every actor that is known and whose claims let it use the
/// capability is bound; where it does not, none is.
pub proof fn authorizers_decide_on_bindings<A: Authorizer>(
    host: &Host<A>,
    hosts: Option<&Vec<HostActors>>,
    actor: &str,
    capid: &str,
    binding_name: Option<String>,
    config: &Table<String, String>,
    known: Option<Claims<ActorMetadata>>,
    answer: bool,
    r: Result<BindRequest, Error>,
)
    requires
        call_ensures(Host::<A>::set_binding, (host, hosts, actor, capid, binding_name, config), r),
        call_ensures(discover_claims, (hosts, &host.claims, actor), known),
        known is Some,
        known->0@.subject == capid@ || (known->0@.metadata is Some
            && known->0@.metadata->0.caps is Some && known->0@.metadata->0.caps->0.contains(
            capid@,
        )),
        forall|c: Claims<ActorMetadata>, t: crate::entity::WasccEntity, a: bool|
            c@ == known->0@ && #[trigger] call_ensures(
                A::can_invoke,
                (&host.authorizer, &c, &t, "BindActor"),
                a,
            ) ==> a == answer,
    ensures
        r is Ok <==> answer,
{
}

/// A binding is recorded exactly where the provider has taken it: under the actor, the
/// capability and the name, with the values, and with an event that names them. No other binding
/// changes.
pub proof fn bindings_are_recorded<A>(
    host: &mut Host<A>,
    actor: &str,
    capid: &str,
    binding: &str,
    config: Table<String, String>,
    reply: Result<InvocationResponse, Error>,
    r: Result<BusEvent, Error>,
)
    requires
        call_ensures(
            Host::<A>::finish_set_binding,
            (host, actor, capid, binding, config, reply),
            r,
        ),
    ensures
        ({
            let key = (actor@, capid@, binding@);
            &&& r is Ok <==> reply is Ok && reply->Ok_0@.error is None
            &&& r is Err ==> *final(host) == *old(host) && r->Err_0@ is CapabilityProvider
            &&& r is Ok ==> final(host).bindings@.contains_key(key)
                && final(host).bindings@[key]@.module == actor@
            &&& r is Ok ==> forall|k: Seq<char>| #[trigger]
                final(host).bindings@[key]@.values.contains_key(k) <==> config@.contains_key(k)
            &&& r is Ok ==> forall|k: Seq<char>| #[trigger]
                final(host).bindings@[key]@.values.contains_key(k)
                    ==> final(host).bindings@[key]@.values[k] == config@[k]@
            &&& forall|k: (Seq<char>, Seq<char>, Seq<char>)|
                k != key ==> (#[trigger] final(host).bindings@.contains_key(k)
                    <==> old(host).bindings@.contains_key(k))
            &&& forall|k: (Seq<char>, Seq<char>, Seq<char>)|
                k != key && #[trigger] final(host).bindings@.contains_key(k)
                    ==> final(host).bindings@[k] == old(host).bindings@[k]
            &&& r is Ok ==> r->Ok_0@ == (EventView::ActorBindingCreated {
                host: old(host).key.spec_public(),
                actor: actor@,
                capid: capid@,
                instance_name: binding@,
            })
            &&& final(host).claims == old(host).claims && final(host).caps == old(host).caps
        }),
{
}

/// To remove a binding, its provider is told to let go of the actor.
pub proof fn bindings_are_removed<A>(
    host: &Host<A>,
    actor: &str,
    capid: &str,
    binding_name: Option<String>,
    r: (String, Invocation),
)
    requires
        call_ensures(Host::<A>::remove_binding, (host, actor, capid, binding_name), r),
    ensures
        ({
            let name = if binding_name is Some {
                binding_name->0@
            } else {
                "default"@
            };
            &&& r.0@ == provider_subject_of(text_view(host.ns), capid@, name)
            &&& r.1@.target == (EntityView::Capability { capid: capid@, binding: name })
            &&& r.1@.operation == "RemoveActor"@
            &&& r.1@.origin == EntityView::Actor("system"@)
            &&& actor@.len() < 0x4000_0000 ==> decoded_configuration(r.1@.msg) is Ok
                && decoded_configuration(
                r.1@.msg,
            )->Ok_0.module == actor@
        }),
{
    assert(crate::codec::short_map(Map::<Seq<char>, Seq<char>>::empty()));
}

/// An actor is found by tags exactly where its claims have all of them.
pub proof fn actors_are_found_by_tags<A>(
    host: &Host<A>,
    tags: &Vec<String>,
    pk: Seq<char>,
    t: Vec<String>,
    r: Vec<String>,
)
    requires
        call_ensures(Host::<A>::actors_by_tag, (host, tags), r),
        host.claims@.contains_key(pk),
        call_ensures(Claims::<ActorMetadata>::tags, (&host.claims@[pk],), t),
    ensures
        texts(r@).contains(pk) <==> (forall|i: int|
            0 <= i < tags@.len() ==> texts(t@).contains((#[trigger] tags@[i])@)),
{
    let c = host.claims@[pk]@;
    let p = |k: Seq<char>| has_tags(host.claims@[k]@, texts(tags@));
    let keys = host.claims.keys();
    let kept = keys.filter(p);
    assert(has_tags(c, texts(tags@)) <==> (forall|i: int|
        0 <= i < tags@.len() ==> texts(t@).contains((#[trigger] tags@[i])@))) by {
        if has_tags(c, texts(tags@)) {
            assert forall|i: int| 0 <= i < tags@.len() implies texts(t@).contains(
                (#[trigger] tags@[i])@,
            ) by {
                assert(texts(tags@)[i] == tags@[i]@);
            }
        }
        if forall|i: int|
            0 <= i < tags@.len() ==> texts(t@).contains((#[trigger] tags@[i])@) {
            assert forall|i: int| 0 <= i < texts(tags@).len() implies crate::claims::tagged(
                c,
            ).contains(#[trigger] texts(tags@)[i]) by {
                assert(texts(tags@)[i] == tags@[i]@);
            }
        }
    }
    assert(keys.contains(pk));
    let j = choose|j: int| 0 <= j < keys.len() && keys[j] == pk;
    if p(pk) {
        keys.lemma_filter_contains(p, j);
    }
    if kept.contains(pk) {
        let i = choose|i: int| 0 <= i < kept.len() && kept[i] == pk;
        keys.lemma_filter_pred(p, i);
    }
}

/// A host tells its own identifier, and names itself in the events that it has started and
/// stopped.
pub proof fn hosts_name_themselves<A>(
    host: &Host<A>,
    id: String,
    started: BusEvent,
    stopped: BusEvent,
)
    requires
        call_ensures(Host::<A>::id, (host,), id),
        call_ensures(Host::<A>::started, (host,), started),
        call_ensures(Host::<A>::stopped, (host,), stopped),
    ensures
        id@ == host.key.spec_public(),
        started@ == EventView::HostStarted(id@),
        stopped@ == EventView::HostStopped(id@),
{
}

/// A shutdown tells every actor in the host to stop, each on its own subject, and nobody else.
pub proof fn shutdown_stops_every_actor<A>(host: &Host<A>, pk: Seq<char>, r: Shutdown)
    requires
        call_ensures(Host::<A>::shutdown, (host,), r),
        host.claims.listed(),
        host.claims@.contains_key(pk),
    ensures
        texts(r.actors@).contains(actor_subject_of(text_view(host.ns), pk)),
        r.actors@.len() == host.claims.keys().len(),
{
    assert(host.claims.keys().contains(pk));
    let i = choose|i: int| 0 <= i < host.claims.keys().len() && host.claims.keys()[i] == pk;
    assert(host.actor_subjects()[i] == actor_subject_of(text_view(host.ns), pk));
    assert(texts(r.actors@)[i] == actor_subject_of(text_view(host.ns), pk));
    assert(texts(r.actors@).len() == r.actors@.len());
}

/// A shutdown succeeds exactly where the thread of every provider runs, and then tells each of
/// them to stop.
pub proof fn shutdown_stops_every_provider<A>(
    host: &Host<A>,
    name: Seq<char>,
    capid: Seq<char>,
    r: Shutdown,
)
    requires
        call_ensures(Host::<A>::shutdown, (host,), r),
        host.caps.listed(),
        host.caps@.contains_key((name, capid)),
    ensures
        r.result is Ok ==> texts(r.providers@).contains(
            provider_subject_of(text_view(host.ns), capid, name),
        ),
        r.result is Ok ==> host.terminators@.contains_key(
            provider_subject_of(text_view(host.ns), capid, name),
        ),
        r.result is Err ==> r.result->Err_0@ == Failure::MiscHost("No such capability"@)
            && r.providers@.len() < host.caps.keys().len(),
{
    let k = (name, capid);
    assert(host.caps.keys().contains(k));
    let i = choose|i: int| 0 <= i < host.caps.keys().len() && host.caps.keys()[i] == k;
    assert(host.provider_subjects()[i] == provider_subject_of(text_view(host.ns), capid, name));
    if r.result is Ok {
        assert(texts(r.providers@).len() == r.providers@.len());
        assert(texts(r.providers@)[i] == host.provider_subjects()[i]);
    }
}

/// An actor that is in the host already, and a provider that is under that name already, are
/// refused by their names.
pub proof fn duplicates_are_told<A>(
    host: &mut Host<A>,
    other: &mut Host<A>,
    actor: &Actor,
    validation: Result<(), Error>,
    allowed: bool,
    r: Result<ActorStart, Error>,
    name: &str,
    d: &CapabilityDescriptor,
    q: Result<(), Error>,
)
    requires
        call_ensures(Host::<A>::admit_actor, (host, actor, validation, allowed), r),
        call_ensures(Host::<A>::add_native_capability, (other, name, d), q),
    ensures
        old(host).claims@.contains_key(actor.spec_claims().subject) ==> r is Err && r->Err_0@
            == Failure::MiscHost(
            "Actor "@ + actor.spec_claims().subject
                + " is already in this host. Cannot host multiple instances of the same actor in the same host"@,
        ),
        q is Err ==> q->Err_0@ == Failure::CapabilityProvider(
            "Capability provider "@ + d@.id + " cannot be bound to the same name ("@ + name@
                + ") twice, loading failed."@,
        ),
{
}

/// Where a provider has not taken a binding, its error is told with the name and the capability.
pub proof fn refused_bindings_are_told<A>(
    host: &mut Host<A>,
    actor: &str,
    capid: &str,
    binding: &str,
    config: Table<String, String>,
    response: InvocationResponse,
    r: Result<BusEvent, Error>,
)
    requires
        response@.error is Some,
        call_ensures(
            Host::<A>::finish_set_binding,
            (host, actor, capid, binding, config, Ok(response)),
            r,
        ),
    ensures
        r is Err,
        r->Err_0@ == Failure::CapabilityProvider(
            "Failed to configure "@ + binding@ + ","@ + capid@ + " - "@ + response@.error->0,
        ),
{
}

/// A new host, or a builder of one, has the labels of what it runs on and the namespace that it
/// is given.
pub proof fn new_hosts_are_what_they_are_given(
    arch: &str,
    os: &str,
    family: &str,
    ns: Option<String>,
    labels: Table<String, String>,
    b: HostBuilder<DefaultAuthorizer>,
    h: Host<DefaultAuthorizer>,
)
    requires
        call_ensures(detect_core_host_labels, (arch, os, family), labels),
        call_ensures(HostBuilder::new, (arch, os, family, ns), b),
        call_ensures(Host::new, (arch, os, family, ns), h),
    ensures
        b.ns == ns && h.ns == ns,
        text_map(b.labels@) == text_map(labels@),
        text_map(h.labels@) == text_map(labels@),
        forall|k: Seq<char>| !(#[trigger] h.claims@.contains_key(k)),
        forall|k: (Seq<char>, Seq<char>, Seq<char>)| !(#[trigger] h.bindings@.contains_key(k)),
        forall|k: Seq<char>| !(#[trigger] h.terminators@.contains_key(k)),
        h.caps@.contains_key(("default"@, "wascc:extras"@)),
{
    assert(h.caps@.dom().contains(("default"@, "wascc:extras"@)));
}

/// An authorizer takes the place of the one before, and nothing else does.
pub proof fn authorizers_are_replaced<A: Authorizer, B: Authorizer>(
    b: HostBuilder<A>,
    authorizer: B,
    r: HostBuilder<B>,
)
    requires
        call_ensures(HostBuilder::<A>::with_authorizer::<B>, (b, authorizer), r),
    ensures
        r.authorizer == authorizer,
        r.labels == b.labels,
        r.ns == b.ns,
{
}

/// An actor is known by the claims that the host holds for it, and each actor and provider is
/// listed with what the host holds for it.
pub proof fn hosts_list_what_they_hold<A>(
    host: &Host<A>,
    pk: &str,
    name: Seq<char>,
    capid: Seq<char>,
    one: Option<Claims<ActorMetadata>>,
    actors: Vec<(String, Claims<ActorMetadata>)>,
    caps: Vec<((String, String), CapabilityDescriptor)>,
)
    requires
        call_ensures(Host::<A>::claims_for_actor, (host, pk), one),
        call_ensures(Host::<A>::actors, (host,), actors),
        call_ensures(Host::<A>::capabilities, (host,), caps),
    ensures
        one is Some <==> host.claims@.contains_key(pk@),
        one is Some ==> one->0@ == host.claims@[pk@]@,
        host.claims@.contains_key(pk@) ==> exists|i: int|
            0 <= i < actors@.len() && (#[trigger] actors@[i]).0@ == pk@ && actors@[i].1@
                == host.claims@[pk@]@,
        forall|i: int|
            0 <= i < actors@.len() ==> host.claims@.contains_key((#[trigger] actors@[i]).0@),
        host.caps@.contains_key((name, capid)) ==> exists|i: int|
            0 <= i < caps@.len() && (#[trigger] caps@[i]).0.0@ == name && caps@[i].0.1@ == capid
                && caps@[i].1@ == host.caps@[(name, capid)]@,
        forall|i: int|
            0 <= i < caps@.len() ==> host.caps@.contains_key(
                ((#[trigger] caps@[i]).0.0@, caps@[i].0.1@),
            ),
{
    if host.claims@.contains_key(pk@) {
        let keys = host.claims.keys();
        assert(keys.contains(pk@));
        let i = choose|i: int| 0 <= i < keys.len() && keys[i] == pk@;
        assert(actors@[i].0@ == pk@);
    }
    assert forall|i: int| 0 <= i < actors@.len() implies host.claims@.contains_key(
        (#[trigger] actors@[i]).0@,
    ) by {
        assert(host.claims.keys().contains(host.claims.keys()[i]));
    }
    if host.caps@.contains_key((name, capid)) {
        let keys = host.caps.keys();
        assert(keys.contains((name, capid)));
        let i = choose|i: int| 0 <= i < keys.len() && keys[i] == (name, capid);
        assert(caps@[i].0.0@ == name);
    }
    assert forall|i: int| 0 <= i < caps@.len() implies host.caps@.contains_key(
        ((#[trigger] caps@[i]).0.0@, caps@[i].0.1@),
    ) by {
        assert(host.caps.keys().contains(host.caps.keys()[i]));
    }
}

/// Without a client for a repository there is an error, an error of the repository is handed on,
/// and bytes without a token are refused. In none of these cases does the host change.
pub proof fn refused_downloads_change_nothing<A: Authorizer>(
    host: &mut Host<A>,
    downloaded: Option<Result<Vec<u8>, Error>>,
    r: Option<Result<ActorStart, Error>>,
)
    requires
        call_ensures(Host::<A>::add_actor_from_gantry, (host, downloaded), r),
    ensures
        downloaded is None ==> r is Some && r->0 is Err && r->0->Err_0@ == Failure::MiscHost(
            "No gantry client configured for this host"@,
        ),
        downloaded is Some && downloaded->0 is Err ==> r is Some && r->0 is Err && r->0->Err_0@
            == downloaded->0->Err_0@,
        downloaded is Some && downloaded->0 is Ok && embedded_token(downloaded->0->Ok_0@) is None
            ==> r is Some && r->0 is Err && r->0->Err_0@ == Failure::Wascap,
        downloaded is Some && downloaded->0 is Ok && embedded_token(downloaded->0->Ok_0@)
            == Some(None::<TokenView>) ==> r is Some && r->0 is Err && r->0->Err_0@
            == Failure::Authorization("No embedded JWT in actor module"@),
        r is None || r->0 is Err ==> *final(host) == *old(host),
{
}

/// An actor from a repository, or one whose token may be of any form, is added only with a token
/// that has a valid signature, and only where it is not in the host yet. Where its token can be
/// put to validation, there is a result.
pub proof fn only_signed_actors_are_tried<A: Authorizer>(
    host: &mut Host<A>,
    actor: &Actor,
    r: Option<Result<ActorStart, Error>>,
    other: &mut Host<A>,
    bytes: Vec<u8>,
    q: Option<Result<ActorStart, Error>>,
)
    requires
        call_ensures(Host::<A>::try_add_actor, (host, actor), r),
        call_ensures(Host::<A>::add_actor_from_gantry, (other, Some(Ok(bytes))), q),
    ensures
        r is Some && r->0 is Ok ==> actor_verdict(actor.spec_token().jwt) == Some(true)
            && !old(host).claims@.contains_key(actor.spec_claims().subject)
            && final(host).claims@.contains_key(actor.spec_claims().subject),
        r is Some <==> old(host).claims@.contains_key(actor.spec_claims().subject) || checkable(
            actor.spec_token().jwt,
            decoded_actor(actor.spec_token().jwt),
        ),
        r is None || r->0 is Err ==> *final(host) == *old(host),
        q is Some && q->0 is Ok ==> embedded_token(bytes@) is Some && embedded_token(bytes@)->0
            is Some && actor_verdict(embedded_token(bytes@)->0->0.jwt) == Some(true)
            && final(other).claims@.contains_key(embedded_token(bytes@)->0->0.claims.subject)
            && final(other).claims@[embedded_token(bytes@)->0->0.claims.subject]@
            == embedded_token(bytes@)->0->0.claims,
        q is None || q->0 is Err ==> *final(other) == *old(other),
{
    if r is Some && r->0 is Ok {
        assert(final(host).claims@.dom().contains(actor.spec_claims().subject));
        enforcement_is_bounded(actor.spec_token().jwt, None);
    }
    if q is Some && q->0 is Ok {
        let token = embedded_token(bytes@)->0->0;
        assert(final(other).claims@.dom().contains(token.claims.subject));
        enforcement_is_bounded(token.jwt, None);
    }
}

/// Where no reply has come from a provider, the text of the error is told with the name and the
/// capability.
pub proof fn lost_bindings_are_told<A>(
    host: &mut Host<A>,
    actor: &str,
    capid: &str,
    binding: &str,
    config: Table<String, String>,
    e: Error,
    r: Result<BusEvent, Error>,
)
    requires
        call_ensures(
            Host::<A>::finish_set_binding,
            (host, actor, capid, binding, config, Err(e)),
            r,
        ),
    ensures
        r is Err,
        *final(host) == *old(host),
        e@ is MiscHost ==> r->Err_0@ == Failure::CapabilityProvider(
            "Failed to configure "@ + binding@ + ","@ + capid@ + " - "@ + ("waSCC Host Error: "@
                + e@->MiscHost_0),
        ),
        e@ is HostCallFailure ==> r->Err_0@ == Failure::CapabilityProvider(
            "Failed to configure "@ + binding@ + ","@ + capid@ + " - "@ + (
            "Error occurred during host call: "@ + e@->HostCallFailure_0),
        ),
{
}

/// The provider for extras is in every host, and cannot be added to it twice.
pub proof fn extras_are_ensured<A>(host: &mut Host<A>, r: Result<(), Error>)
    requires
        call_ensures(Host::<A>::ensure_extras, (host,), r),
    ensures
        r is Ok <==> !old(host).caps@.contains_key(("default"@, "wascc:extras"@)),
        r is Err ==> *final(host) == *old(host) && r->Err_0@ is CapabilityProvider,
        final(host).caps@.contains_key(("default"@, "wascc:extras"@)),
        r is Ok ==> final(host).caps@[("default"@, "wascc:extras"@)]@.id == "wascc:extras"@,
        forall|k: (Seq<char>, Seq<char>)|
            k != ("default"@, "wascc:extras"@) ==> (#[trigger] final(host).caps@.contains_key(k)
                <==> old(host).caps@.contains_key(k)),
{
    let key = ("default"@, "wascc:extras"@);
    if r is Ok {
        assert forall|k: (Seq<char>, Seq<char>)| #[trigger] final(host).caps@.contains_key(k)
            <==> k == key || old(host).caps@.contains_key(k) by {
            assert(final(host).caps@.dom().contains(k) <==> old(host).caps@.dom().insert(
                key,
            ).contains(k));
        }
        assert(final(host).caps@.contains_key(key));
    }
}

/// A provider that is put into a host takes the place of one with the same capability ID and name,
/// and of no other.
pub proof fn providers_are_put<A>(host: &mut Host<A>, name: &str, d: &CapabilityDescriptor)
    requires
        call_ensures(Host::<A>::put_capability, (host, name, d), ()),
    ensures
        final(host).caps@.contains_key((name@, d@.id)),
        final(host).caps@[(name@, d@.id)]@ == d@,
        forall|k: (Seq<char>, Seq<char>)|
            k != (name@, d@.id) ==> (#[trigger] final(host).caps@.contains_key(k)
                <==> old(host).caps@.contains_key(k)),
        forall|k: (Seq<char>, Seq<char>)|
            k != (name@, d@.id) && #[trigger] final(host).caps@.contains_key(k)
                ==> final(host).caps@[k] == old(host).caps@[k],
        final(host).claims == old(host).claims && final(host).bindings == old(host).bindings
            && final(host).terminators == old(host).terminators,
{
    let key = (name@, d@.id);
    assert forall|k: (Seq<char>, Seq<char>)| #[trigger] final(host).caps@.contains_key(k) <==> k
        == key || old(host).caps@.contains_key(k) by {
        assert(final(host).caps@.dom().contains(k) <==> old(host).caps@.dom().insert(key).contains(
            k,
        ));
    }
    assert(final(host).caps@.contains_key(key));
}

/// An actor is started with its claims, on its own subject, and under its own name.
pub proof fn actors_are_started<A>(
    host: &mut Host<A>,
    claims: &Claims<ActorMetadata>,
    caps: Vec<String>,
    r: ActorStart,
)
    requires
        call_ensures(Host::<A>::start_actor, (host, claims), r),
        call_ensures(Claims::<ActorMetadata>::caps, (claims,), caps),
    ensures
        r.subject@ == actor_subject_of(text_view(old(host).ns), claims@.subject),
        r.starting@ == (EventView::ActorStarting {
            actor: claims@.subject,
            host: old(host).key.spec_public(),
        }),
        r.started@ == (EventView::ActorStarted {
            actor: claims@.subject,
            host: old(host).key.spec_public(),
        }),
        r.binds_extras <==> texts(caps@).contains("wascc:extras"@),
        final(host).claims@.contains_key(claims@.subject)
            && final(host).claims@[claims@.subject]@ == claims@,
        forall|s: Seq<char>| #[trigger]
            final(host).terminators@.contains_key(s) <==> s == r.subject@
                || old(host).terminators@.contains_key(s),
        forall|k: Seq<char>|
            k != claims@.subject ==> (#[trigger] final(host).claims@.contains_key(k)
                <==> old(host).claims@.contains_key(k)),
        final(host).bindings == old(host).bindings && final(host).caps == old(host).caps,
{
    assert(final(host).claims@.dom().contains(claims@.subject));
    assert forall|k: Seq<char>| k != claims@.subject implies (
    #[trigger] final(host).claims@.contains_key(k) <==> old(host).claims@.contains_key(k)) by {
        assert(final(host).claims@.dom().contains(k) <==> old(host).claims@.dom().insert(
            claims@.subject,
        ).contains(k));
    }
}

/// A host is made with the authorizer, the labels and the namespace that it is given, and with the
/// key of a server.
pub proof fn hosts_are_generated<A>(
    authz: A,
    labels: Table<String, String>,
    ns: Option<String>,
    r: Host<A>,
)
    requires
        call_ensures(Host::<A>::generate, (authz, labels, ns), r),
    ensures
        r.authorizer == authz && r.labels == labels && r.ns == ns,
        r.key.spec_public().len() == 56 && r.key.spec_public()[0] == 'N',
        forall|k: Seq<char>| !(#[trigger] r.claims@.contains_key(k)),
        forall|k: (Seq<char>, Seq<char>, Seq<char>)| !(#[trigger] r.bindings@.contains_key(k)),
        forall|k: Seq<char>| !(#[trigger] r.terminators@.contains_key(k)),
        r.caps@.contains_key(("default"@, "wascc:extras"@)),
{
    assert(r.caps@.dom().contains(("default"@, "wascc:extras"@)));
}

/// Whoever is found by tags is in the host, and is found once.
pub proof fn only_own_actors_are_found_by_tags<A>(
    host: &Host<A>,
    tags: &Vec<String>,
    i: int,
    j: int,
    r: Vec<String>,
)
    requires
        call_ensures(Host::<A>::actors_by_tag, (host, tags), r),
        0 <= i < r@.len(),
        0 <= j < r@.len(),
    ensures
        host.claims@.contains_key(r@[i]@),
        r@[i]@ == r@[j]@ ==> i == j,
{
    let p = |k: Seq<char>| has_tags(host.claims@[k]@, texts(tags@));
    let keys = host.claims.keys();
    let kept = keys.filter(p);
    assert(texts(r@).len() == r@.len());
    assert(texts(r@)[i] == r@[i]@ && texts(r@)[j] == r@[j]@);
    assert(kept.contains(kept[i]));
    keys.lemma_filter_contains_rev(p, kept[i]);
    lemma_filter_distinct(keys, p);
}

} // verus!
