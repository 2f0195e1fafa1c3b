//! The control plane of a host in a lattice: what it makes of the commands and the
//! auctions that it hears.
use vstd::prelude::*;

use crate::actor::Actor;
use crate::authz::{check_auth, enforce_validation, enforcement_outcome, failure_of, Authorizer};
use crate::bus::lattice::{
    accepts_termination, actors_and_control_stay_apart, bids, control_subject, control_subject_of,
    control_topic, satisfied, topic_of, ControlTopic,
};
use crate::bus::{actor_subject, actor_subject_of, ns_ref};
use crate::claims::{
    checkable, decode_actor, decoded_actor, is_checkable, ActorMetadata, ActorMetadataView, Claims,
    ClaimsView,
};
use crate::codec::{pairs_map, table_of, text_map, CapabilityDescriptor};
use crate::errors::Failure;
use crate::bindings::RouteKey;
use crate::runtime::{admitted, provided, starts, ActorStart, Host};
use crate::table::Table;

verus! {

/// What a host does about a message on the control plane
#[derive(Debug, Clone, Copy, PartialEq, Eq, Structural)]
pub enum Reaction {
    /// Hand the command to the thread that carries it out
    Queue,
    /// Reply to an auction
    Bid,
    Ignore,
}

/// What a host does about a message on the control plane, by its topic and by the
/// reference and the constraints in it. What is not in the host cannot be stopped, and
/// what is in it is not bid for; nor does a host bid whose labels do not satisfy the
/// constraints.
pub open spec fn reaction_of(
    topic: ControlTopic,
    images: Set<Seq<char>>,
    labels: Map<Seq<char>, Seq<char>>,
    reference: Seq<char>,
    constraints: Map<Seq<char>, Seq<char>>,
) -> Reaction {
    match topic {
        ControlTopic::LaunchActor | ControlTopic::LaunchProvider => Reaction::Queue,
        ControlTopic::TerminateActor | ControlTopic::TerminateProvider => if images.contains(
            reference,
        ) {
            Reaction::Queue
        } else {
            Reaction::Ignore
        },
        ControlTopic::ActorAuction | ControlTopic::ProviderAuction => if !images.contains(
            reference,
        ) && satisfied(labels, constraints) {
            Reaction::Bid
        } else {
            Reaction::Ignore
        },
        ControlTopic::Other => Reaction::Ignore,
    }
}

/// What `serde_json::from_slice` makes of bytes as a `LaunchCommand` of latticeclient: the
/// reference in it, or the text of the error.
pub uninterp spec fn launch_in(data: Seq<u8>) -> Result<Seq<char>, Seq<char>>;

/// What `serde_json::from_slice` makes of bytes as a `TerminateCommand` of latticeclient:
/// the reference in it, or the text of the error.
pub uninterp spec fn termination_in(data: Seq<u8>) -> Result<Seq<char>, Seq<char>>;

/// What `serde_json::from_slice` makes of bytes as a `LaunchProviderCommand` of
/// latticeclient: the reference and the binding name in it, or the text of the error.
pub uninterp spec fn provider_launch_in(data: Seq<u8>) -> Result<(Seq<char>, Seq<char>), Seq<char>>;

/// What `serde_json::from_slice` makes of bytes as a `TerminateProviderCommand` of
/// latticeclient: the reference in it, or the text of the error.
pub uninterp spec fn provider_termination_in(data: Seq<u8>) -> Result<Seq<char>, Seq<char>>;

/// What `serde_json::from_slice` makes of bytes as a `LaunchAuctionRequest` of
/// latticeclient: the reference and the constraints in it, or the text of the error.
pub uninterp spec fn auction_in(data: Seq<u8>) -> Result<
    (Seq<char>, Map<Seq<char>, Seq<char>>),
    Seq<char>,
>;

/// What `serde_json::from_slice` makes of bytes as a `ProviderAuctionRequest` of
/// latticeclient: the reference and the constraints in it, or the text of the error.
pub uninterp spec fn provider_auction_in(data: Seq<u8>) -> Result<
    (Seq<char>, Map<Seq<char>, Seq<char>>),
    Seq<char>,
>;

/// The view of a reference that was read, or of the error.
pub open spec fn reference_view(r: Result<String, String>) -> Result<Seq<char>, Seq<char>> {
    match r {
        Ok(s) => Ok(s@),
        Err(e) => Err(e@),
    }
}

/// The view of a reference and of constraints that were read, or of the error.
pub open spec fn request_view(r: Result<(String, Vec<(String, String)>), String>) -> Result<
    (Seq<char>, Map<Seq<char>, Seq<char>>),
    Seq<char>,
> {
    match r {
        Ok(q) => Ok((q.0@, pairs_map(q.1@))),
        Err(e) => Err(e@),
    }
}

/// `serde_json::from_slice` as a `latticeclient::controlplane::LaunchCommand`: the
/// reference of the actor, or the text of the error.
#[verifier::external_body]
fn read_launch(data: &[u8]) -> (r: Result<String, String>)
    ensures
        reference_view(r) == launch_in(data@),
{
    match serde_json::from_slice::<latticeclient::controlplane::LaunchCommand>(data) {
        Ok(command) => Ok(command.actor_id),
        Err(e) => Err(e.to_string()),
    }
}

/// `serde_json::from_slice` as a `latticeclient::controlplane::TerminateCommand`: the
/// reference of the actor, or the text of the error.
#[verifier::external_body]
fn read_termination(data: &[u8]) -> (r: Result<String, String>)
    ensures
        reference_view(r) == termination_in(data@),
{
    match serde_json::from_slice::<latticeclient::controlplane::TerminateCommand>(data) {
        Ok(command) => Ok(command.actor_id),
        Err(e) => Err(e.to_string()),
    }
}

/// `serde_json::from_slice` as a `latticeclient::controlplane::LaunchProviderCommand`: the
/// reference of the provider and the binding name, or the text of the error.
#[verifier::external_body]
fn read_provider_launch(data: &[u8]) -> (r: Result<(String, String), String>)
    ensures
        r is Ok == provider_launch_in(data@) is Ok,
        r is Ok ==> (r->Ok_0.0@, r->Ok_0.1@) == provider_launch_in(data@)->Ok_0,
        r is Err ==> r->Err_0@ == provider_launch_in(data@)->Err_0,
{
    match serde_json::from_slice::<latticeclient::controlplane::LaunchProviderCommand>(data) {
        Ok(command) => Ok((command.provider_ref, command.binding_name)),
        Err(e) => Err(e.to_string()),
    }
}

/// `serde_json::from_slice` as a `latticeclient::controlplane::TerminateProviderCommand`:
/// the reference of the provider, or the text of the error.
#[verifier::external_body]
fn read_provider_termination(data: &[u8]) -> (r: Result<String, String>)
    ensures
        reference_view(r) == provider_termination_in(data@),
{
    match serde_json::from_slice::<latticeclient::controlplane::TerminateProviderCommand>(data) {
        Ok(command) => Ok(command.provider_ref),
        Err(e) => Err(e.to_string()),
    }
}

/// `serde_json::from_slice` as a `latticeclient::controlplane::LaunchAuctionRequest`: the
/// reference of the actor and the constraints, as pairs in any order; or the text of the
/// error.
#[verifier::external_body]
fn read_auction(data: &[u8]) -> (r: Result<(String, Vec<(String, String)>), String>)
    ensures
        request_view(r) == auction_in(data@),
{
    match serde_json::from_slice::<latticeclient::controlplane::LaunchAuctionRequest>(data) {
        Ok(request) => Ok((request.actor_id, request.constraints.into_iter().collect())),
        Err(e) => Err(e.to_string()),
    }
}

/// `serde_json::from_slice` as a `latticeclient::controlplane::ProviderAuctionRequest`: the
/// reference of the provider and the constraints, as pairs in any order; or the text of
/// the error.
#[verifier::external_body]
fn read_provider_auction(data: &[u8]) -> (r: Result<(String, Vec<(String, String)>), String>)
    ensures
        request_view(r) == provider_auction_in(data@),
{
    match serde_json::from_slice::<latticeclient::controlplane::ProviderAuctionRequest>(data) {
        Ok(request) => Ok((request.provider_ref, request.constraints.into_iter().collect())),
        Err(e) => Err(e.to_string()),
    }
}

/// A command about a reference: it comes without constraints.
pub open spec fn unconstrained(reference: Result<Seq<char>, Seq<char>>) -> Result<
    (Seq<char>, Map<Seq<char>, Seq<char>>),
    Seq<char>,
> {
    match reference {
        Ok(s) => Ok((s, Map::empty())),
        Err(e) => Err(e),
    }
}

/// The reference and the constraints in a message on the control plane, by its topic, or
/// the text of what is wrong with the message. A message about something else is not read.
pub open spec fn heard(topic: ControlTopic, data: Seq<u8>) -> Result<
    (Seq<char>, Map<Seq<char>, Seq<char>>),
    Seq<char>,
> {
    match topic {
        ControlTopic::LaunchActor => unconstrained(launch_in(data)),
        ControlTopic::TerminateActor => unconstrained(termination_in(data)),
        ControlTopic::LaunchProvider => match provider_launch_in(data) {
            Ok(q) => Ok((q.0, Map::empty())),
            Err(e) => Err(e),
        },
        ControlTopic::TerminateProvider => unconstrained(provider_termination_in(data)),
        ControlTopic::ActorAuction => auction_in(data),
        ControlTopic::ProviderAuction => provider_auction_in(data),
        ControlTopic::Other => Ok((Seq::empty(), Map::empty())),
    }
}

fn without_constraints(reference: Result<String, String>) -> (r: Result<
    (String, Vec<(String, String)>),
    String,
>)
    ensures
        request_view(r) == unconstrained(reference_view(reference)),
{
    match reference {
        Ok(s) => {
            let none: Vec<(String, String)> = Vec::new();
            assert(pairs_map(none@) =~= Map::empty());
            Ok((s, none))
        },
        Err(e) => Err(e),
    }
}

fn read_message(topic: ControlTopic, data: &[u8]) -> (r: Result<
    (String, Vec<(String, String)>),
    String,
>)
    ensures
        request_view(r) == heard(topic, data@),
{
    match topic {
        ControlTopic::LaunchActor => without_constraints(read_launch(data)),
        ControlTopic::TerminateActor => without_constraints(read_termination(data)),
        ControlTopic::LaunchProvider => match read_provider_launch(data) {
            Ok((reference, _)) => without_constraints(Ok(reference)),
            Err(e) => without_constraints(Err(e)),
        },
        ControlTopic::TerminateProvider => without_constraints(read_provider_termination(data)),
        ControlTopic::ActorAuction => read_auction(data),
        ControlTopic::ProviderAuction => read_provider_auction(data),
        ControlTopic::Other => {
            let nothing = String::new();
            assert(nothing@ =~= Seq::<char>::empty());
            without_constraints(Ok(nothing))
        },
    }
}

/// The binding name in the command to launch a capability provider, or the text of what is
/// wrong with the message.
pub fn launch_binding(data: &[u8]) -> (r: Result<String, String>)
    ensures
        r is Ok == provider_launch_in(data@) is Ok,
        r is Ok ==> r->Ok_0@ == provider_launch_in(data@)->Ok_0.1,
        r is Err ==> r->Err_0@ == provider_launch_in(data@)->Err_0,
{
    match read_provider_launch(data) {
        Ok((_, binding)) => Ok(binding),
        Err(e) => Err(e),
    }
}

/// What `serde_json::to_vec` makes of a `LaunchAck` of latticeclient, by the reference of
/// the actor and the host in it.
pub uninterp spec fn launch_ack(actor: Seq<char>, host: Seq<char>) -> Seq<u8>;

/// What `serde_json::to_vec` makes of a `ProviderLaunchAck` of latticeclient, by the
/// reference of the provider and the host in it.
pub uninterp spec fn provider_launch_ack(provider: Seq<char>, host: Seq<char>) -> Seq<u8>;

/// What `serde_json::to_vec` makes of a `LaunchAuctionResponse` of latticeclient, by the
/// host in it.
pub uninterp spec fn auction_bid(host: Seq<char>) -> Seq<u8>;

/// What `serde_json::to_vec` makes of a `ProviderAuctionResponse` of latticeclient, by the
/// reference of the provider and the host in it.
pub uninterp spec fn provider_auction_bid(provider: Seq<char>, host: Seq<char>) -> Seq<u8>;

/// `serde_json::to_vec` of a `latticeclient::controlplane::LaunchAck`.
#[verifier::external_body]
fn write_launch_ack(actor: &str, host: &str) -> (r: Vec<u8>)
    ensures
        r@ == launch_ack(actor@, host@),
{
    let (actor_id, host) = (actor.to_string(), host.to_string());
    serde_json::to_vec(&latticeclient::controlplane::LaunchAck { actor_id, host }).unwrap()
}

/// `serde_json::to_vec` of a `latticeclient::controlplane::ProviderLaunchAck`.
#[verifier::external_body]
fn write_provider_launch_ack(provider: &str, host: &str) -> (r: Vec<u8>)
    ensures
        r@ == provider_launch_ack(provider@, host@),
{
    let (provider_ref, host) = (provider.to_string(), host.to_string());
    serde_json::to_vec(&latticeclient::controlplane::ProviderLaunchAck { provider_ref, host }).unwrap()
}

/// `serde_json::to_vec` of a `latticeclient::controlplane::LaunchAuctionResponse`.
#[verifier::external_body]
fn write_auction_bid(host: &str) -> (r: Vec<u8>)
    ensures
        r@ == auction_bid(host@),
{
    let host_id = host.to_string();
    serde_json::to_vec(&latticeclient::controlplane::LaunchAuctionResponse { host_id }).unwrap()
}

/// `serde_json::to_vec` of a `latticeclient::controlplane::ProviderAuctionResponse`.
#[verifier::external_body]
fn write_provider_auction_bid(provider: &str, host: &str) -> (r: Vec<u8>)
    ensures
        r@ == provider_auction_bid(provider@, host@),
{
    let (host_id, provider_ref) = (host.to_string(), provider.to_string());
    serde_json::to_vec(
        &latticeclient::controlplane::ProviderAuctionResponse { host_id, provider_ref },
    ).unwrap()
}

/// The reply of a host to a message on the control plane that it acts upon: the
/// acknowledgement of a launch, or a bid. The commands to stop something have none.
pub open spec fn reply_of(topic: ControlTopic, reference: Seq<char>, host: Seq<char>) -> Option<
    Seq<u8>,
> {
    match topic {
        ControlTopic::LaunchActor => Some(launch_ack(reference, host)),
        ControlTopic::LaunchProvider => Some(provider_launch_ack(reference, host)),
        ControlTopic::ActorAuction => Some(auction_bid(host)),
        ControlTopic::ProviderAuction => Some(provider_auction_bid(reference, host)),
        _ => None,
    }
}

impl<A> Host<A> {
    /// The reply to a message on the control plane that the host acts upon.
    pub fn reply_to_control(&self, topic: ControlTopic, reference: &str) -> (r: Option<Vec<u8>>)
        ensures
            r is Some == reply_of(topic, reference@, self.key.spec_public()) is Some,
            r matches Some(bytes) ==> Some(bytes@) == reply_of(
                topic,
                reference@,
                self.key.spec_public(),
            ),
    {
        let id = self.key.public_key();
        match topic {
            ControlTopic::LaunchActor => Some(write_launch_ack(reference, id.as_str())),
            ControlTopic::LaunchProvider => Some(write_provider_launch_ack(reference, id.as_str())),
            ControlTopic::ActorAuction => Some(write_auction_bid(id.as_str())),
            ControlTopic::ProviderAuction => Some(
                write_provider_auction_bid(reference, id.as_str()),
            ),
            ControlTopic::TerminateActor | ControlTopic::TerminateProvider
            | ControlTopic::Other => None,
        }
    }

    /// Hears a message on the control plane: what it is about, the reference in it, and
    /// what the host does about it; or the text of what is wrong with the message.
    pub fn hear_control(&self, subject: &str, data: &[u8]) -> (r: Result<
        (ControlTopic, String, Reaction),
        String,
    >)
        ensures
            ({
                let topic = topic_of(subject@, self.key.spec_public());
                match heard(topic, data@) {
                    Ok((reference, constraints)) => {
                        &&& r is Ok
                        &&& r->Ok_0.0 == topic
                        &&& r->Ok_0.1@ == reference
                        &&& r->Ok_0.2 == reaction_of(
                            topic,
                            self.image_map@.dom(),
                            text_map(self.labels@),
                            reference,
                            constraints,
                        )
                    },
                    Err(e) => r is Err && r->Err_0@ == e,
                }
            }),
    {
        let id = self.key.public_key();
        let topic = control_topic(subject, id.as_str());
        match read_message(topic, data) {
            Ok((reference, pairs)) => {
                let constraints = table_of(pairs);
                let reaction = self.react(topic, reference.as_str(), &constraints);
                Ok((topic, reference, reaction))
            },
            Err(e) => Err(e),
        }
    }

    /// Decides what the host does about a message on the control plane.
    pub fn react(
        &self,
        topic: ControlTopic,
        reference: &str,
        constraints: &Table<String, String>,
    ) -> (r: Reaction)
        ensures
            r == reaction_of(
                topic,
                self.image_map@.dom(),
                text_map(self.labels@),
                reference@,
                text_map(constraints@),
            ),
    {
        match topic {
            ControlTopic::LaunchActor => Reaction::Queue,
            ControlTopic::LaunchProvider => Reaction::Queue,
            ControlTopic::TerminateActor | ControlTopic::TerminateProvider => {
                // actor IDs are OCI image references in the requests
                if accepts_termination(&self.image_map, reference) {
                    Reaction::Queue
                } else {
                    Reaction::Ignore
                }
            },
            ControlTopic::ActorAuction | ControlTopic::ProviderAuction => {
                if bids(&self.image_map, &self.labels, reference, constraints) {
                    Reaction::Bid
                } else {
                    Reaction::Ignore
                }
            },
            ControlTopic::Other => Reaction::Ignore,
        }
    }

    /// Starts an actor that came from a registry, by the result of validating its token
    /// and by the authorizer's word. Its reference is noted whatever they are.
    pub fn admit_remote_actor(
        &mut self,
        reference: &str,
        actor: &Actor,
        valid: bool,
        allowed: bool,
    ) -> (r: Option<ActorStart>)
        requires
            old(self).wf(),
        ensures
            final(self).wf(),
            r is Some == (valid && allowed),
            noted(
                old(self).image_map@,
                final(self).image_map@,
                reference@,
                actor.spec_claims().subject,
            ),
            r is None ==> final(self).claims == old(self).claims && final(self).terminators == old(
                self,
            ).terminators,
            r matches Some(start) ==> {
                &&& admitted(old(self).claims@, final(self).claims@, actor.spec_claims())
                &&& starts(
                    start,
                    actor.spec_claims(),
                    old(self).space(),
                    old(self).key.spec_public(),
                )
                &&& final(self).terminators@ == old(self).terminators@.insert(start.subject@, ())
            },
            final(self).bindings == old(self).bindings,
            final(self).caps == old(self).caps,
            final(self).same_settings(*old(self)),
    {
        let ghost before = self.image_map@;
        self.image_map.insert(reference.to_string(), actor.public_key());
        assert(self.image_map@.dom() =~= before.dom().insert(reference@));
        if !valid || !allowed {
            return None;
        }
        Some(self.start_actor(&actor.token().claims))
    }

    /// Carries out the command to stop an actor that came from a registry: the result is
    /// the subject on which its thread is told to stop.
    pub fn terminate_actor(&mut self, reference: &str) -> (r: String)
        requires
            old(self).wf(),
            old(self).image_map@.contains_key(reference@),
            old(self).terminators@.contains_key(
                actor_subject_of(old(self).space(), old(self).image_map@[reference@]@),
            ),
        ensures
            final(self).wf(),
            r@ == actor_subject_of(old(self).space(), old(self).image_map@[reference@]@),
            final(self).image_map@ == old(self).image_map@.remove(
                old(self).image_map@[reference@]@,
            ),
            final(self).claims == old(self).claims,
            final(self).bindings == old(self).bindings,
            final(self).caps == old(self).caps,
            final(self).terminators == old(self).terminators,
            final(self).same_settings(*old(self)),
    {
        // get PK from the OCI ref
        let pk = match self.image_map.get(&reference.to_string()) {
            Some(pk) => pk.clone(),
            None => String::new(),
        };
        let _ = self.image_map.remove(&pk);
        actor_subject(ns_ref(&self.ns), pk.as_str())
    }

    /// Notes a capability provider that came from a registry, whether or not there is one
    /// with the same capability ID and binding name already: the result tells.
    pub fn admit_remote_provider(&mut self, binding_name: &str, descriptor: &CapabilityDescriptor) -> (r:
        bool)
        requires
            old(self).wf(),
        ensures
            final(self).wf(),
            r == old(self).caps@.contains_key((binding_name@, descriptor@.id)),
            provided(old(self).caps@, final(self).caps@, binding_name@, descriptor@),
            final(self).same_but_caps(*old(self)),
    {
        let present = self.caps.contains_key(&RouteKey::new(binding_name, descriptor.id.as_str()));
        self.put_capability(binding_name, descriptor);
        present
    }

    /// What becomes of the host when the thread that carries out commands was told to
    /// stop.
    pub fn stop_controlplane(&mut self)
        requires
            old(self).wf(),
        ensures
            final(self).wf(),
            final(self).terminators@ == old(self).terminators@.remove(
                control_subject_of(old(self).space(), old(self).key.spec_public()),
            ),
            final(self).same_but_terminators(*old(self)),
    {
        let id = self.key.public_key();
        let subject = control_subject(ns_ref(&self.ns), id.as_str());
        proof {
            assert forall|k: Seq<char>| #[trigger]
                actor_subject_of(self.space(), k) != subject@ by {
                actors_and_control_stay_apart(self.space(), k, id@);
            }
        }
        let _ = self.terminators.remove(&subject);
    }

    /// The subject on which the thread that carries out commands is told to stop, when the
    /// host leaves the lattice.
    pub fn disconnect(&self) -> (r: String)
        requires
            self.terminators@.contains_key(
                control_subject_of(self.space(), self.key.spec_public()),
            ),
        ensures
            r@ == control_subject_of(self.space(), self.key.spec_public()),
    {
        let id = self.key.public_key();
        control_subject(ns_ref(&self.ns), id.as_str())
    }
}

/// The references after an actor that came from a registry was noted.
pub open spec fn noted(
    before: Map<Seq<char>, String>,
    after: Map<Seq<char>, String>,
    reference: Seq<char>,
    pk: Seq<char>,
) -> bool {
    &&& after.dom() == before.dom().insert(reference)
    &&& after[reference]@ == pk
    &&& forall|k: Seq<char>| k != reference && #[trigger] before.contains_key(k) ==> after[k] == before[k]
}

/// Whether an actor that came from a registry can be started, by what validating its token
/// can give at some time, and by what the authorizer can say of its claims.
pub open spec fn remote_outcome<A: Authorizer>(
    authorizer: A,
    jwt: Seq<char>,
    c: ClaimsView<ActorMetadataView>,
    started: bool,
) -> bool {
    exists|validation: Option<Failure>| #[trigger]
        enforcement_outcome(jwt, validation) && (if validation is Some {
            !started
        } else {
            exists|claims: Claims<ActorMetadata>|
                claims@ == c && #[trigger] call_ensures(
                    A::can_load,
                    (&authorizer, &claims),
                    started,
                )
        })
}

impl<A: Authorizer> Host<A> {
    /// Carries out the command to start an actor that came from a registry.
    pub fn start_remote_actor(&mut self, reference: &str, actor: &Actor) -> (r: Option<ActorStart>)
        requires
            old(self).wf(),
            checkable(actor.spec_token().jwt, decoded_actor(actor.spec_token().jwt)),
        ensures
            final(self).wf(),
            remote_outcome(
                old(self).authorizer,
                actor.spec_token().jwt,
                actor.spec_claims(),
                r is Some,
            ),
            noted(
                old(self).image_map@,
                final(self).image_map@,
                reference@,
                actor.spec_claims().subject,
            ),
            r is None ==> final(self).claims == old(self).claims && final(self).terminators == old(
                self,
            ).terminators,
            r matches Some(start) ==> {
                &&& admitted(old(self).claims@, final(self).claims@, actor.spec_claims())
                &&& starts(
                    start,
                    actor.spec_claims(),
                    old(self).space(),
                    old(self).key.spec_public(),
                )
                &&& final(self).terminators@ == old(self).terminators@.insert(start.subject@, ())
            },
            final(self).bindings == old(self).bindings,
            final(self).caps == old(self).caps,
            final(self).same_settings(*old(self)),
    {
        let token = actor.token();
        let validation = enforce_validation(token.jwt.as_str());
        let ghost verdict = failure_of(validation);
        assert(enforcement_outcome(actor.spec_token().jwt, verdict));
        if validation.is_err() {
            return self.admit_remote_actor(reference, actor, false, false);
        }
        let allowed = check_auth(&self.authorizer, token);
        assert(call_ensures(A::can_load, (&old(self).authorizer, &token.claims), allowed));
        self.admit_remote_actor(reference, actor, true, allowed)
    }

    /// Carries out the command to start an actor that came from a registry and whose token
    /// may be of any form. Of an actor whose token cannot be put to validation it says
    /// nothing, and starts nothing.
    pub fn try_start_remote_actor(&mut self, reference: &str, actor: &Actor) -> (r: Option<
        Option<ActorStart>,
    >)
        requires
            old(self).wf(),
        ensures
            final(self).wf(),
            r is Some == checkable(actor.spec_token().jwt, decoded_actor(actor.spec_token().jwt)),
            r is None ==> *final(self) == *old(self),
            r is Some ==> remote_outcome(
                old(self).authorizer,
                actor.spec_token().jwt,
                actor.spec_claims(),
                r->0 is Some,
            ),
            r is Some ==> noted(
                old(self).image_map@,
                final(self).image_map@,
                reference@,
                actor.spec_claims().subject,
            ),
            r matches Some(Some(start)) ==> {
                &&& admitted(old(self).claims@, final(self).claims@, actor.spec_claims())
                &&& starts(
                    start,
                    actor.spec_claims(),
                    old(self).space(),
                    old(self).key.spec_public(),
                )
                &&& final(self).terminators@ == old(self).terminators@.insert(start.subject@, ())
            },
            r matches Some(None) ==> final(self).claims == old(self).claims
                && final(self).terminators == old(self).terminators,
            final(self).bindings == old(self).bindings,
            final(self).caps == old(self).caps,
            final(self).same_settings(*old(self)),
    {
        let token = actor.token();
        let claims = match decode_actor(token.jwt.as_str()) {
            Ok(c) => Some(c),
            Err(_) => None,
        };
        if is_checkable(token.jwt.as_str(), &claims) {
            Some(self.start_remote_actor(reference, actor))
        } else {
            None
        }
    }
}

/// A host replies to an auction exactly where its labels satisfy the constraints and it does
/// not run what is auctioned, and it bids in no other case. What it is told to stop, it has.
pub proof fn auctions_skip_what_runs(
    images: Set<Seq<char>>,
    labels: Map<Seq<char>, Seq<char>>,
    reference: Seq<char>,
    constraints: Map<Seq<char>, Seq<char>>,
    topic: ControlTopic,
)
    ensures
        reaction_of(topic, images, labels, reference, constraints) == Reaction::Bid <==> (
        topic is ActorAuction || topic is ProviderAuction) && !images.contains(reference)
            && satisfied(labels, constraints),
        (topic is TerminateActor || topic is TerminateProvider) && reaction_of(
            topic,
            images,
            labels,
            reference,
            constraints,
        ) == Reaction::Queue ==> images.contains(reference),
{
}

} // verus!
