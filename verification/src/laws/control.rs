//! The commands that reach a host over the control plane.
use vstd::prelude::*;

use crate::actor::Actor;
use crate::authz::{enforcement_is_bounded, enforcement_outcome, Authorizer};
use crate::bus::actor_subject_of;
use crate::bus::lattice::{control_topic, ControlTopic};
use crate::claims::{actor_verdict, checkable, decoded_actor, text_view, ActorMetadata, Claims};
use crate::codec::{text_map, CapabilityDescriptor};
use crate::controlplane::{
    auction_bid, auction_in, launch_ack, launch_binding, launch_in, provider_auction_bid,
    provider_auction_in, provider_launch_ack, provider_launch_in, provider_termination_in,
    termination_in, Reaction,
};
use crate::errors::Failure;
use crate::runtime::{ActorStart, Host};
use crate::table::Table;

verus! {

/// A host carries out every command to launch something. A command to stop something it carries
/// out exactly where that runs in it, and it bids in an auction exactly where what is auctioned
/// does not run in it and its labels are those that are asked for. It minds nothing else.
pub proof fn hosts_react_to_control<A>(
    host: &Host<A>,
    topic: ControlTopic,
    reference: &str,
    constraints: &Table<String, String>,
    met: bool,
    r: Reaction,
)
    requires
        call_ensures(Host::<A>::react, (host, topic, reference, constraints), r),
        met <==> (forall|k: Seq<char>| #[trigger]
            constraints@.contains_key(k) ==> host.labels@.contains_key(k) && host.labels@[k]@
                == constraints@[k]@),
    ensures
        topic is LaunchActor || topic is LaunchProvider ==> r == Reaction::Queue,
        topic is TerminateActor || topic is TerminateProvider ==> (r == Reaction::Queue
            <==> host.image_map@.contains_key(reference@)) && r != Reaction::Bid,
        topic is ActorAuction || topic is ProviderAuction ==> (r == Reaction::Bid
            <==> !host.image_map@.contains_key(reference@) && met) && r != Reaction::Queue,
        topic is Other ==> r == Reaction::Ignore,
{
    let c = text_map(constraints@);
    let l = text_map(host.labels@);
    assert forall|k: Seq<char>| #[trigger] constraints@.contains_key(k) <==> c.contains_key(k) by {}
    assert forall|k: Seq<char>| #[trigger] host.labels@.contains_key(k) <==> l.contains_key(k) by {}
    if met {
        assert forall|k: Seq<char>| #[trigger] c.contains_key(k) implies l.contains_key(k) && l[k]
            == c[k] by {
            assert(constraints@.contains_key(k));
        }
    } else {
        let k = choose|k: Seq<char>| #[trigger]
            constraints@.contains_key(k) && !(host.labels@.contains_key(k) && host.labels@[k]@
                == constraints@[k]@);
        assert(c.contains_key(k));
        assert(!(l.contains_key(k) && l[k] == c[k]));
    }
}

/// A launch is acknowledged, and an auction is answered with a bid, in the host's own name. A
/// command to stop something has no reply.
pub proof fn hosts_reply_to_control<A>(
    host: &Host<A>,
    topic: ControlTopic,
    reference: &str,
    r: Option<Vec<u8>>,
)
    requires
        call_ensures(Host::<A>::reply_to_control, (host, topic, reference), r),
    ensures
        ({
            let id = host.key.spec_public();
            &&& topic is LaunchActor ==> r is Some && r->0@ == launch_ack(reference@, id)
            &&& topic is LaunchProvider ==> r is Some && r->0@ == provider_launch_ack(
                reference@,
                id,
            )
            &&& topic is ActorAuction ==> r is Some && r->0@ == auction_bid(id)
            &&& topic is ProviderAuction ==> r is Some && r->0@ == provider_auction_bid(
                reference@,
                id,
            )
            &&& topic is TerminateActor || topic is TerminateProvider || topic is Other
                ==> r is None
        }),
{
}

/// What a host hears is what the subject says that the message is about, for this host, and the
/// reference that the message holds in the form of such a message.
pub proof fn hosts_hear_control<A>(
    host: &Host<A>,
    subject: &str,
    data: &[u8],
    id: &str,
    topic: ControlTopic,
    r: Result<(ControlTopic, String, Reaction), String>,
)
    requires
        call_ensures(Host::<A>::hear_control, (host, subject, data), r),
        id@ == host.key.spec_public(),
        call_ensures(control_topic, (subject, id), topic),
    ensures
        r is Ok ==> r->Ok_0.0 == topic,
        topic is LaunchActor ==> (r is Ok <==> launch_in(data@) is Ok) && (r is Ok ==> r->Ok_0.1@
            == launch_in(data@)->Ok_0 && r->Ok_0.2 == Reaction::Queue) && (r is Err ==> r->Err_0@
            == launch_in(data@)->Err_0),
        topic is TerminateActor ==> (r is Ok <==> termination_in(data@) is Ok) && (r is Ok
            ==> r->Ok_0.1@ == termination_in(data@)->Ok_0) && (r is Err ==> r->Err_0@
            == termination_in(data@)->Err_0),
        topic is LaunchProvider ==> (r is Ok <==> provider_launch_in(data@) is Ok) && (r is Ok
            ==> r->Ok_0.1@ == provider_launch_in(data@)->Ok_0.0 && r->Ok_0.2 == Reaction::Queue)
            && (r is Err ==> r->Err_0@ == provider_launch_in(data@)->Err_0),
        topic is TerminateProvider ==> (r is Ok <==> provider_termination_in(data@) is Ok) && (
        r is Ok ==> r->Ok_0.1@ == provider_termination_in(data@)->Ok_0),
        topic is ActorAuction ==> (r is Ok <==> auction_in(data@) is Ok) && (r is Ok ==> r->Ok_0.1@
            == auction_in(data@)->Ok_0.0),
        topic is ProviderAuction ==> (r is Ok <==> provider_auction_in(data@) is Ok) && (r is Ok
            ==> r->Ok_0.1@ == provider_auction_in(data@)->Ok_0.0),
        topic is Other ==> r is Ok && r->Ok_0.2 == Reaction::Ignore,
        r is Ok && (topic is TerminateActor || topic is TerminateProvider) ==> (r->Ok_0.2
            == Reaction::Queue <==> host.image_map@.contains_key(r->Ok_0.1@)),
        r is Ok && host.image_map@.contains_key(r->Ok_0.1@) ==> r->Ok_0.2 != Reaction::Bid,
{
}

/// A host bids in an auction that it has heard of exactly where it does not run what is auctioned
/// and has every label that the message asks for.
pub proof fn hosts_bid_by_their_labels<A>(
    host: &Host<A>,
    subject: &str,
    data: &[u8],
    id: &str,
    topic: ControlTopic,
    wanted: Map<Seq<char>, Seq<char>>,
    met: bool,
    r: Result<(ControlTopic, String, Reaction), String>,
)
    requires
        call_ensures(Host::<A>::hear_control, (host, subject, data), r),
        id@ == host.key.spec_public(),
        call_ensures(control_topic, (subject, id), topic),
        r is Ok,
        (topic is ActorAuction && wanted == auction_in(data@)->Ok_0.1) || (topic is ProviderAuction
            && wanted == provider_auction_in(data@)->Ok_0.1),
        met <==> (forall|k: Seq<char>| #[trigger]
            wanted.contains_key(k) ==> host.labels@.contains_key(k) && host.labels@[k]@
                == wanted[k]),
    ensures
        r->Ok_0.2 == Reaction::Bid <==> !host.image_map@.contains_key(r->Ok_0.1@) && met,
{
    let l = text_map(host.labels@);
    assert forall|k: Seq<char>| #[trigger] host.labels@.contains_key(k) <==> l.contains_key(k) by {}
    if met {
        assert forall|k: Seq<char>| #[trigger] wanted.contains_key(k) implies l.contains_key(k)
            && l[k] == wanted[k] by {}
    } else {
        let k = choose|k: Seq<char>| #[trigger]
            wanted.contains_key(k) && !(host.labels@.contains_key(k) && host.labels@[k]@
                == wanted[k]);
        assert(!(l.contains_key(k) && l[k] == wanted[k]));
    }
}

/// The name under which a provider is launched is the one in the command.
pub proof fn launches_name_their_binding(data: &[u8], r: Result<String, String>)
    requires
        call_ensures(launch_binding, (data,), r),
    ensures
        r is Ok <==> provider_launch_in(data@) is Ok,
        r is Ok ==> r->Ok_0@ == provider_launch_in(data@)->Ok_0.1,
{
}

/// The reference of an actor that came from a registry is noted with its public key, whether or
/// not the actor starts. It starts exactly where its token is valid and it is allowed.
pub proof fn remote_actors_are_noted<A>(
    host: &mut Host<A>,
    reference: &str,
    actor: &Actor,
    valid: bool,
    allowed: bool,
    r: Option<ActorStart>,
)
    requires
        call_ensures(Host::<A>::admit_remote_actor, (host, reference, actor, valid, allowed), r),
    ensures
        ({
            let c = actor.spec_claims();
            &&& r is Some <==> valid && allowed
            &&& final(host).image_map@.contains_key(reference@)
                && final(host).image_map@[reference@]@ == c.subject
            &&& forall|k: Seq<char>|
                k != reference@ ==> (#[trigger] final(host).image_map@.contains_key(k)
                    <==> old(host).image_map@.contains_key(k))
            &&& r is None ==> final(host).claims == old(host).claims && final(host).terminators
                == old(host).terminators
            &&& r is Some ==> final(host).claims@.contains_key(c.subject)
                && final(host).claims@[c.subject]@ == c
            &&& r is Some ==> r->0.subject@ == actor_subject_of(text_view(old(host).ns), c.subject)
                && final(host).terminators@.contains_key(r->0.subject@)
            &&& forall|k: Seq<char>|
                k != c.subject && old(host).claims@.contains_key(k) ==> (
                #[trigger] final(host).claims@.contains_key(k)) && final(host).claims@[k]
                    == old(host).claims@[k]
            &&& final(host).bindings == old(host).bindings && final(host).caps == old(host).caps
        }),
{
    let c = actor.spec_claims();
    assert(final(host).image_map@.dom().contains(reference@));
    assert forall|k: Seq<char>| k != reference@ implies (
    #[trigger] final(host).image_map@.contains_key(k)
        <==> old(host).image_map@.contains_key(k)) by {
        assert(final(host).image_map@.dom().contains(k) <==> old(host).image_map@.dom().insert(
            reference@,
        ).contains(k));
    }
    if r is Some {
        assert(final(host).claims@.dom().contains(c.subject));
        assert forall|k: Seq<char>| k != c.subject && old(host).claims@.contains_key(k) implies (
        #[trigger] final(host).claims@.contains_key(k)) && final(host).claims@[k]
            == old(host).claims@[k] by {
            assert(final(host).claims@.dom().contains(k) <==> old(host).claims@.dom().insert(
                c.subject,
            ).contains(k));
        }
    }
}

/// An actor that came from a registry starts only with a token that has a valid signature; where
/// it has one without dates, what the authorizer says of its claims decides.
pub proof fn remote_actors_need_a_signature<A: Authorizer>(
    host: &mut Host<A>,
    reference: &str,
    actor: &Actor,
    answer: bool,
    r: Option<ActorStart>,
)
    requires
        call_ensures(Host::<A>::start_remote_actor, (host, reference, actor), r),
        forall|c: Claims<ActorMetadata>, a: bool|
            c@ == actor.spec_claims() && #[trigger] call_ensures(
                A::can_load,
                (&old(host).authorizer, &c),
                a,
            ) ==> a == answer,
    ensures
        r is Some ==> actor_verdict(actor.spec_token().jwt) == Some(true) && answer,
        actor_verdict(actor.spec_token().jwt) == Some(true) && decoded_actor(
            actor.spec_token().jwt,
        )->0.expires is None && decoded_actor(actor.spec_token().jwt)->0.not_before is None ==> (
        r is Some <==> answer),
{
    let jwt = actor.spec_token().jwt;
    let c = actor.spec_claims();
    let validation = choose|validation: Option<Failure>| #[trigger]
        enforcement_outcome(jwt, validation) && (if validation is Some {
            r is None
        } else {
            exists|claims: Claims<ActorMetadata>|
                claims@ == c && #[trigger] call_ensures(
                    A::can_load,
                    (&old(host).authorizer, &claims),
                    r is Some,
                )
        });
    enforcement_is_bounded(jwt, validation);
}

/// An actor is stopped by the reference that it came with: on the subject of the actor that the
/// reference stands for.
pub proof fn references_stand_for_actors<A>(host: &mut Host<A>, reference: &str, r: String)
    requires
        old(host).image_map@.contains_key(reference@),
        call_ensures(Host::<A>::terminate_actor, (host, reference), r),
    ensures
        r@ == actor_subject_of(text_view(old(host).ns), old(host).image_map@[reference@]@),
        final(host).claims == old(host).claims && final(host).terminators == old(host).terminators,
{
}

/// A provider that came from a registry is noted, in place of one with the same capability ID and
/// name. The result tells whether there was one.
pub proof fn remote_providers_are_noted<A>(
    host: &mut Host<A>,
    name: &str,
    d: &CapabilityDescriptor,
    r: bool,
)
    requires
        call_ensures(Host::<A>::admit_remote_provider, (host, name, d), r),
    ensures
        r <==> old(host).caps@.contains_key((name@, d@.id)),
        final(host).caps@.contains_key((name@, d@.id)),
        final(host).caps@[(name@, d@.id)]@ == d@,
        forall|k: (Seq<char>, Seq<char>)|
            k != (name@, d@.id) ==> (#[trigger] final(host).caps@.contains_key(k)
                <==> old(host).caps@.contains_key(k)),
        final(host).claims == old(host).claims && final(host).bindings == old(host).bindings,
{
    let key = (name@, d@.id);
    assert(final(host).caps@.dom().contains(key));
    assert forall|k: (Seq<char>, Seq<char>)| k != key implies (
    #[trigger] final(host).caps@.contains_key(k) <==> old(host).caps@.contains_key(k)) by {
        assert(final(host).caps@.dom().contains(k) <==> old(host).caps@.dom().insert(key).contains(
            k,
        ));
    }
}

/// The thread for commands is noted when it starts and forgotten when it stops, under the subject
/// of the host, on which it is told to stop.
pub proof fn the_control_thread_starts_and_stops<A>(
    host: &mut Host<A>,
    later: &mut Host<A>,
    now: &Host<A>,
    subject: String,
    told: String,
)
    requires
        call_ensures(Host::<A>::start_controlplane, (host,), subject),
        call_ensures(Host::<A>::stop_controlplane, (later,), ()),
        *old(later) == *final(host),
        *now == *final(host),
        call_ensures(Host::<A>::disconnect, (now,), told),
    ensures
        told@ == subject@,
        final(host).terminators@.contains_key(subject@),
        !final(later).terminators@.contains_key(subject@),
        forall|s: Seq<char>|
            s != subject@ ==> (#[trigger] final(later).terminators@.contains_key(s)
                <==> old(host).terminators@.contains_key(s)),
        final(later).claims == old(host).claims && final(later).caps == old(host).caps
            && final(later).bindings == old(host).bindings,
{
}

/// Of an actor whose token cannot be put to validation nothing is said, and nothing changes. Of
/// any other, its reference is noted, and it starts only with a valid signature.
pub proof fn remote_actors_are_tried<A: Authorizer>(
    host: &mut Host<A>,
    reference: &str,
    actor: &Actor,
    r: Option<Option<ActorStart>>,
)
    requires
        call_ensures(Host::<A>::try_start_remote_actor, (host, reference, actor), r),
    ensures
        r is Some <==> checkable(actor.spec_token().jwt, decoded_actor(actor.spec_token().jwt)),
        r is None ==> *final(host) == *old(host),
        r is Some ==> final(host).image_map@.contains_key(reference@)
            && final(host).image_map@[reference@]@ == actor.spec_claims().subject,
        r is Some && r->0 is Some ==> actor_verdict(actor.spec_token().jwt) == Some(true)
            && final(host).claims@.contains_key(actor.spec_claims().subject),
        r is Some && r->0 is None ==> final(host).claims == old(host).claims,
{
    if r is Some {
        assert(final(host).image_map@.dom().contains(reference@));
    }
    if r is Some && r->0 is Some {
        assert(final(host).claims@.dom().contains(actor.spec_claims().subject));
        enforcement_is_bounded(actor.spec_token().jwt, None);
    }
}

/// To stop an actor by its reference leaves the references alone but for one that reads as the
/// public key of the actor.
pub proof fn references_stay<A>(host: &mut Host<A>, reference: &str, r: String)
    requires
        old(host).image_map@.contains_key(reference@),
        call_ensures(Host::<A>::terminate_actor, (host, reference), r),
    ensures
        forall|k: Seq<char>|
            k != old(host).image_map@[reference@]@ ==> (
            #[trigger] final(host).image_map@.contains_key(k)
                <==> old(host).image_map@.contains_key(k)),
        forall|k: Seq<char>| #[trigger]
            final(host).image_map@.contains_key(k) ==> final(host).image_map@[k]
                == old(host).image_map@[k],
        !final(host).image_map@.contains_key(old(host).image_map@[reference@]@),
        final(host).bindings == old(host).bindings && final(host).caps == old(host).caps
            && final(host).labels == old(host).labels,
{
}

} // verus!
