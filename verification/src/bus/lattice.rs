//! The message bus of a host in a lattice: what it decides about the messages that
//! it hears, and what it makes of the replies that it gets.
use vstd::prelude::*;

use crate::authz::ClaimsMap;
use crate::bindings::{BindingKeyView, BindingsList, RouteKey};
use crate::bus::{actor_subject_of, nsprefix, ns_view, prefix_of};
use crate::claims::{ActorMetadata, ActorMetadataView, Claims, ClaimsView};
use crate::codec::{copy_table, text_map, CapabilityConfiguration, CapabilityDescriptor};
use crate::errors::{self, preamble, detail, Error, ErrorKind, Failure};
use crate::inthost::{
    admissible, antiforgery_outcome, error_response, Invocation, InvocationResponse, InvocationView,
};
use crate::authz::failure_of;
use crate::table::Table;
use crate::text::{begins, contains, ends, ends_with, holds, parse_u64, parsed_u64, same};

verus! {

/// The environment variable with the address of the lattice
pub const LATTICE_HOST_KEY: &'static str = "LATTICE_HOST";

/// The default mode is anonymous via loopback
pub const DEFAULT_LATTICE_HOST: &'static str = "127.0.0.1";

/// The environment variable with the time that a call may take
pub const LATTICE_RPC_TIMEOUT_KEY: &'static str = "LATTICE_RPC_TIMEOUT_MILLIS";

pub const DEFAULT_LATTICE_RPC_TIMEOUT_MILLIS: u64 = 600;

/// The environment variable with the path of the credentials
pub const LATTICE_CREDSFILE_KEY: &'static str = "LATTICE_CREDS_FILE";

/// How often a host that goes down looks whether its actors and providers have stopped
pub const TERM_BACKOFF_MAX_TRIES: u8 = 3;

/// How long it waits before it looks again, in milliseconds
pub const TERM_BACKOFF_DELAY_MS: u64 = 50;

pub const CPLANE_PREFIX: &'static str = "control";

pub const AUCTION_REQ: &'static str = "auction.request";

pub const PROVIDER_AUCTION_REQ: &'static str = "provauction.request";

pub const LAUNCH_ACTOR: &'static str = "actor.launch";

pub const LAUNCH_PROVIDER: &'static str = "provider.launch";

pub const TERMINATE_ACTOR: &'static str = "actor.terminate";

pub const TERMINATE_PROVIDER: &'static str = "provider.terminate";

pub const INVENTORY_ACTORS: &'static str = "inventory.actors";

pub const INVENTORY_HOSTS: &'static str = "inventory.hosts";

pub const INVENTORY_BINDINGS: &'static str = "inventory.bindings";

pub const INVENTORY_CAPABILITIES: &'static str = "inventory.capabilities";

/// An event on the bus
#[derive(Debug, PartialEq, Eq)]
pub enum BusEvent {
    /// A host process has fully started and is ready for work
    HostStarted(String),
    /// A host has stopped on a predictable manner
    HostStopped(String),
    /// An actor has begun the loading/parsing phase
    ActorStarting { actor: String, host: String },
    /// An actor has started and is ready to receive messages
    ActorStarted { actor: String, host: String },
    /// An actor has stopped in a predictable manner
    ActorStopped { actor: String, host: String },
    /// A capability provider has been loaded on a host
    ProviderLoaded { capid: String, instance_name: String, host: String },
    /// A capability provider has been removed from a host
    ProviderRemoved { capid: String, instance_name: String, host: String },
    /// A binding between an actor and a named capability provider instance was created
    ActorBindingCreated { host: String, actor: String, capid: String, instance_name: String },
}

#[verifier::ext_equal]
pub ghost enum EventView {
    HostStarted(Seq<char>),
    HostStopped(Seq<char>),
    ActorStarting { actor: Seq<char>, host: Seq<char> },
    ActorStarted { actor: Seq<char>, host: Seq<char> },
    ActorStopped { actor: Seq<char>, host: Seq<char> },
    ProviderLoaded { capid: Seq<char>, instance_name: Seq<char>, host: Seq<char> },
    ProviderRemoved { capid: Seq<char>, instance_name: Seq<char>, host: Seq<char> },
    ActorBindingCreated {
        host: Seq<char>,
        actor: Seq<char>,
        capid: Seq<char>,
        instance_name: Seq<char>,
    },
}

impl View for BusEvent {
    type V = EventView;

    open spec fn view(&self) -> EventView {
        match self {
            BusEvent::HostStarted(h) => EventView::HostStarted(h@),
            BusEvent::HostStopped(h) => EventView::HostStopped(h@),
            BusEvent::ActorStarting { actor, host } => EventView::ActorStarting {
                actor: actor@,
                host: host@,
            },
            BusEvent::ActorStarted { actor, host } => EventView::ActorStarted {
                actor: actor@,
                host: host@,
            },
            BusEvent::ActorStopped { actor, host } => EventView::ActorStopped {
                actor: actor@,
                host: host@,
            },
            BusEvent::ProviderLoaded { capid, instance_name, host } => EventView::ProviderLoaded {
                capid: capid@,
                instance_name: instance_name@,
                host: host@,
            },
            BusEvent::ProviderRemoved { capid, instance_name, host } => EventView::ProviderRemoved {
                capid: capid@,
                instance_name: instance_name@,
                host: host@,
            },
            BusEvent::ActorBindingCreated {
                host,
                actor,
                capid,
                instance_name,
            } => EventView::ActorBindingCreated {
                host: host@,
                actor: actor@,
                capid: capid@,
                instance_name: instance_name@,
            },
        }
    }
}

/// The subject on which a host hears all control messages.
pub fn controlplane_wildcard_subject(ns: Option<&str>) -> (r: String)
    ensures
        r@ == prefix_of(ns_view(ns)) + "."@ + CPLANE_PREFIX@ + ".>"@,
{
    nsprefix(ns).concat(".").concat(CPLANE_PREFIX).concat(".>")  // e.g. wasmbus.control.* or wasmbus.control.Nxxx.*

}

/// The subject under which the thread that carries out control commands is known.
pub open spec fn control_subject_of(ns: Option<Seq<char>>, host: Seq<char>) -> Seq<char> {
    prefix_of(ns) + "."@ + CPLANE_PREFIX@ + "."@ + host
}

/// The subject under which the thread that carries out control commands is known.
pub fn control_subject(ns: Option<&str>, host: &str) -> (r: String)
    ensures
        r@ == control_subject_of(ns_view(ns), host@),
{
    nsprefix(ns).concat(".").concat(CPLANE_PREFIX).concat(".").concat(host)
}

/// Within one namespace an actor never shares a subject with the thread that carries out
/// control commands.
pub proof fn actors_and_control_stay_apart(
    ns: Option<Seq<char>>,
    actor: Seq<char>,
    host: Seq<char>,
)
    ensures
        actor_subject_of(ns, actor) != control_subject_of(ns, host),
{
    reveal_strlit(".actor.");
    reveal_strlit("control");
    reveal_strlit(".");
    let n = prefix_of(ns).len() as int;
    assert(actor_subject_of(ns, actor)[n + 1] == 'a');
    assert(control_subject_of(ns, host)[n + 1] == 'c');
}

/// The value of an environment variable, or a default where it is not set or empty.
pub fn get_env(value: Option<String>, default: &str) -> (r: String)
    ensures
        r@ == (match value {
            Some(v) => if v@.len() == 0 {
                default@
            } else {
                v@
            },
            None => default@,
        }),
{
    match value {
        Some(val) => if val.as_str().is_empty() {
            default.to_string()
        } else {
            val
        },
        None => default.to_string(),
    }
}

/// The time that a call may take, in milliseconds, by the value of the environment
/// variable for it.
pub fn get_timeout(value: Option<String>) -> (r: u64)
    ensures
        r == (match value {
            Some(v) => match parsed_u64(v@) {
                Some(n) => n,
                None => DEFAULT_LATTICE_RPC_TIMEOUT_MILLIS,
            },
            None => DEFAULT_LATTICE_RPC_TIMEOUT_MILLIS,
        }),
{
    match value {
        Some(val) => {
            if val.as_str().is_empty() {
                DEFAULT_LATTICE_RPC_TIMEOUT_MILLIS
            } else {
                match parse_u64(val.as_str()) {
                    Some(n) => n,
                    None => DEFAULT_LATTICE_RPC_TIMEOUT_MILLIS,
                }
            }
        },
        None => DEFAULT_LATTICE_RPC_TIMEOUT_MILLIS,
    }
}

/// Whether a host that goes down waits once more for what has not stopped yet.
pub fn keep_waiting(pending: usize, tries: u8) -> (r: bool)
    ensures
        r == (pending > 0 && tries < TERM_BACKOFF_MAX_TRIES),
{
    pending > 0 && tries < TERM_BACKOFF_MAX_TRIES
}

/// What the actors of one host in the lattice claim
pub struct HostActors {
    pub host: String,
    pub actors: Vec<Claims<ActorMetadata>>,
}

/// How many of some claims are those of an actor.
pub open spec fn instances_in(actors: Seq<Claims<ActorMetadata>>, actor: Seq<char>) -> nat
    decreases actors.len(),
{
    if actors.len() == 0 {
        0
    } else {
        instances_in(actors.drop_last(), actor) + (if actors.last()@.subject == actor {
            1nat
        } else {
            0nat
        })
    }
}

/// How many instances of an actor run in the lattice.
pub open spec fn instances(hosts: Seq<HostActors>, actor: Seq<char>) -> nat
    decreases hosts.len(),
{
    if hosts.len() == 0 {
        0
    } else {
        instances(hosts.drop_last(), actor) + instances_in(hosts.last().actors@, actor)
    }
}

fn count_in(actors: &Vec<Claims<ActorMetadata>>, actor: &str) -> (r: usize)
    ensures
        r == instances_in(actors@, actor@),
        r <= actors@.len(),
{
    let mut n: usize = 0;
    let mut i: usize = 0;
    while i < actors.len()
        invariant
            i <= actors.len(),
            n <= i,
            n == instances_in(actors@.take(i as int), actor@),
        decreases actors.len() - i,
    {
        assert(actors@.take(i + 1).drop_last() =~= actors@.take(i as int));
        if same(actors[i].subject.as_str(), actor) {
            n += 1;
        }
        i += 1;
    }
    assert(actors@.take(actors@.len() as int) =~= actors@);
    n
}

proof fn lemma_instances_grow(hosts: Seq<HostActors>, actor: Seq<char>, i: int)
    requires
        0 <= i <= hosts.len(),
    ensures
        instances(hosts.take(i), actor) <= instances(hosts, actor),
    decreases hosts.len() - i,
{
    if i < hosts.len() {
        lemma_instances_grow(hosts, actor, i + 1);
        assert(hosts.take(i + 1).drop_last() =~= hosts.take(i));
    } else {
        assert(hosts.take(i) =~= hosts);
    }
}

/// How many instances of an actor run in the lattice, by what the hosts have
/// replied.
pub fn instance_count(hosts: &Vec<HostActors>, actor: &str) -> (r: usize)
    requires
        instances(hosts@, actor@) <= usize::MAX,
    ensures
        r == instances(hosts@, actor@),
{
    let mut n: usize = 0;
    let mut i: usize = 0;
    while i < hosts.len()
        invariant
            i <= hosts.len(),
            instances(hosts@, actor@) <= usize::MAX,
            n == instances(hosts@.take(i as int), actor@),
        decreases hosts.len() - i,
    {
        proof {
            lemma_instances_grow(hosts@, actor@, i + 1);
            assert(hosts@.take(i + 1).drop_last() =~= hosts@.take(i as int));
        }
        n = n + count_in(&hosts[i].actors, actor);
        i += 1;
    }
    assert(hosts@.take(hosts@.len() as int) =~= hosts@);
    n
}

/// The claims of an actor among some claims: the first that are found.
pub open spec fn found_in(actors: Seq<Claims<ActorMetadata>>, actor: Seq<char>) -> Option<
    ClaimsView<ActorMetadataView>,
>
    decreases actors.len(),
{
    if actors.len() == 0 {
        None
    } else if actors[0]@.subject == actor {
        Some(actors[0]@)
    } else {
        found_in(actors.skip(1), actor)
    }
}

/// The claims of an actor in the lattice: the first that are found.
pub open spec fn found(hosts: Seq<HostActors>, actor: Seq<char>) -> Option<
    ClaimsView<ActorMetadataView>,
>
    decreases hosts.len(),
{
    if hosts.len() == 0 {
        None
    } else {
        match found_in(hosts[0].actors@, actor) {
            Some(c) => Some(c),
            None => found(hosts.skip(1), actor),
        }
    }
}

/// The claims by which an actor is known: those in the lattice, if the lattice has
/// replied and holds the actor, and else those in the host itself.
pub open spec fn known_claims(
    hosts: Option<Seq<HostActors>>,
    local: Map<Seq<char>, Claims<ActorMetadata>>,
    actor: Seq<char>,
) -> Option<ClaimsView<ActorMetadataView>> {
    let remote = match hosts {
        Some(h) => found(h, actor),
        None => None,
    };
    if remote is Some {
        remote
    } else if local.contains_key(actor) {
        Some(local[actor]@)
    } else {
        None
    }
}

/// The view of optional claims.
pub open spec fn opt_claims(c: Option<Claims<ActorMetadata>>) -> Option<
    ClaimsView<ActorMetadataView>,
> {
    match c {
        Some(c) => Some(c@),
        None => None,
    }
}

fn find_in(actors: &Vec<Claims<ActorMetadata>>, actor: &str) -> (r: Option<Claims<ActorMetadata>>)
    ensures
        opt_claims(r) == found_in(actors@, actor@),
{
    let mut i: usize = 0;
    assert(actors@.skip(0) =~= actors@);
    while i < actors.len()
        invariant
            i <= actors.len(),
            found_in(actors@, actor@) == found_in(actors@.skip(i as int), actor@),
        decreases actors.len() - i,
    {
        assert(actors@.skip(i as int)[0] == actors@[i as int]);
        assert(actors@.skip(i as int).skip(1) =~= actors@.skip(i + 1));
        if same(actors[i].subject.as_str(), actor) {
            return Some(actors[i].copy());
        }
        i += 1;
    }
    None
}

fn find(hosts: &Vec<HostActors>, actor: &str) -> (r: Option<Claims<ActorMetadata>>)
    ensures
        opt_claims(r) == found(hosts@, actor@),
{
    let mut i: usize = 0;
    assert(hosts@.skip(0) =~= hosts@);
    while i < hosts.len()
        invariant
            i <= hosts.len(),
            found(hosts@, actor@) == found(hosts@.skip(i as int), actor@),
        decreases hosts.len() - i,
    {
        assert(hosts@.skip(i as int)[0] == hosts@[i as int]);
        assert(hosts@.skip(i as int).skip(1) =~= hosts@.skip(i + 1));
        let c = find_in(&hosts[i].actors, actor);
        if c.is_some() {
            return c;
        }
        i += 1;
    }
    None
}

/// The claims by which an actor is known: those in the lattice, if the lattice has
/// replied and holds the actor, and else those in the host itself.
pub fn discover_claims(hosts: Option<&Vec<HostActors>>, local: &ClaimsMap, actor: &str) -> (r:
    Option<Claims<ActorMetadata>>)
    ensures
        opt_claims(r) == known_claims(
            match hosts {
                Some(h) => Some(h@),
                None => None,
            },
            local@,
            actor@,
        ),
{
    let remote = match hosts {
        Some(h) => find(h, actor),
        None => None,
    };
    match remote {
        Some(c) => Some(c),
        None => match local.get(&actor.to_string()) {
            Some(c) => Some(c.copy()),
            None => None,
        },
    }
}

/// A binding as the hosts of a lattice tell each other of it
pub struct Binding {
    pub actor: String,
    pub capability_id: String,
    pub binding_name: String,
    pub configuration: Table<String, String>,
}

#[verifier::ext_equal]
pub ghost struct BindingView {
    pub actor: Seq<char>,
    pub capability_id: Seq<char>,
    pub binding_name: Seq<char>,
    pub configuration: Map<Seq<char>, Seq<char>>,
}

impl View for Binding {
    type V = BindingView;

    open spec fn view(&self) -> BindingView {
        BindingView {
            actor: self.actor@,
            capability_id: self.capability_id@,
            binding_name: self.binding_name@,
            configuration: text_map(self.configuration@),
        }
    }
}

/// The bindings of all hosts, one after the other.
pub open spec fn all_bindings(hosts: Seq<Vec<Binding>>) -> Seq<Binding>
    decreases hosts.len(),
{
    if hosts.len() == 0 {
        Seq::empty()
    } else {
        all_bindings(hosts.drop_last()) + hosts.last()@
    }
}

/// The bindings in the lattice, by what the hosts have replied, or the text of what
/// went wrong.
pub fn query_bindings(hosts: Result<Vec<Vec<Binding>>, String>) -> (r: Result<Vec<Binding>, Error>)
    ensures
        r is Ok == hosts is Ok,
        r is Ok ==> r->Ok_0@ == all_bindings(hosts->Ok_0@),
        r is Err ==> r->Err_0@ == Failure::HostCallFailure(
            "Failed to query bindings from lattice : "@ + hosts->Err_0@,
        ),
{
    match hosts {
        Ok(hosts) => {
            let mut hosts = hosts;
            let ghost whole = hosts@;
            let mut out: Vec<Binding> = Vec::new();
            assert(all_bindings(whole) =~= all_bindings(hosts@) + out@);
            while hosts.len() > 0
                invariant
                    all_bindings(whole) == all_bindings(hosts@) + out@,
                decreases hosts.len(),
            {
                let ghost before = hosts@;
                let ghost tail = out@;
                match hosts.pop() {
                    Some(last) => {
                        let mut last = last;
                        let ghost l = last@;
                        last.append(&mut out);
                        out = last;
                        assert(before.drop_last() =~= hosts@);
                        assert(all_bindings(hosts@) + (l + tail) =~= all_bindings(before) + tail);
                    },
                    None => {},
                }
            }
            assert(all_bindings(whole) =~= out@);
            Ok(out)
        },
        Err(e) => Err(
            errors::new(
                ErrorKind::HostCallFailure(
                    "Failed to query bindings from lattice : ".to_string().concat(e.as_str()),
                ),
            ),
        ),
    }
}

/// What a failed count of the instances of an actor means.
pub fn instance_count_failure(e: &str) -> (r: Error)
    ensures
        r@ == Failure::HostCallFailure("Failed to determine instance count for actor: "@ + e@),
{
    errors::new(
        ErrorKind::HostCallFailure(
            "Failed to determine instance count for actor: ".to_string().concat(e),
        ),
    )
}

/// Whether an invocation can be sent: only over a live connection.
pub fn check_connection(connected: bool) -> (r: Result<(), Error>)
    ensures
        r is Ok == connected,
        r is Err ==> r->Err_0@ == Failure::MiscHost(
            "Attempted a bus invocation without a live bus connection"@,
        ),
{
    if connected {
        Ok(())
    } else {
        Err(
            errors::new(
                ErrorKind::MiscHost(
                    "Attempted a bus invocation without a live bus connection".to_string(),
                ),
            ),
        )
    }
}

/// What a control message is about
#[derive(Debug, Clone, Copy, PartialEq, Eq, Structural)]
pub enum ControlTopic {
    LaunchActor,
    TerminateActor,
    LaunchProvider,
    TerminateProvider,
    ProviderAuction,
    ActorAuction,
    /// Not for this host, or about something else
    Other,
}

/// What a control message on a subject is about, for the host with the given
/// identifier. A request of a provider auction ends in the same way as one of an
/// actor auction, and so comes first.
pub open spec fn topic_of(subject: Seq<char>, host_id: Seq<char>) -> ControlTopic {
    if ends(subject, LAUNCH_ACTOR@) && holds(subject, host_id) {
        ControlTopic::LaunchActor
    } else if ends(subject, TERMINATE_ACTOR@) && holds(subject, host_id) {
        ControlTopic::TerminateActor
    } else if ends(subject, LAUNCH_PROVIDER@) && holds(subject, host_id) {
        ControlTopic::LaunchProvider
    } else if ends(subject, TERMINATE_PROVIDER@) && holds(subject, host_id) {
        ControlTopic::TerminateProvider
    } else if ends(subject, PROVIDER_AUCTION_REQ@) {
        ControlTopic::ProviderAuction
    } else if ends(subject, AUCTION_REQ@) {
        ControlTopic::ActorAuction
    } else {
        ControlTopic::Other
    }
}

/// What a control message on a subject is about, for the host with the given
/// identifier.
pub fn control_topic(subject: &str, host_id: &str) -> (r: ControlTopic)
    ensures
        r == topic_of(subject@, host_id@),
{
    let mine = contains(subject, host_id);
    if ends_with(subject, LAUNCH_ACTOR) && mine {
        ControlTopic::LaunchActor
    } else if ends_with(subject, TERMINATE_ACTOR) && mine {
        ControlTopic::TerminateActor
    } else if ends_with(subject, LAUNCH_PROVIDER) && mine {
        ControlTopic::LaunchProvider
    } else if ends_with(subject, TERMINATE_PROVIDER) && mine {
        ControlTopic::TerminateProvider
    } else if ends_with(subject, PROVIDER_AUCTION_REQ) {
        ControlTopic::ProviderAuction
    } else if ends_with(subject, AUCTION_REQ) {
        ControlTopic::ActorAuction
    } else {
        ControlTopic::Other
    }
}

/// Commands are only ever taken by the host whose identifier is in their subject.
pub proof fn commands_reach_only_their_host(subject: Seq<char>, host_id: Seq<char>)
    requires
        !holds(subject, host_id),
    ensures
        ({
            let t = topic_of(subject, host_id);
            t is ProviderAuction || t is ActorAuction || t is Other
        }),
{
}

/// A request of a provider auction is never taken for one of an actor auction,
/// though it ends in the same way.
pub proof fn provider_auctions_stay_apart(head: Seq<char>, host_id: Seq<char>)
    ensures
        ends(head + PROVIDER_AUCTION_REQ@, AUCTION_REQ@),
        topic_of(head + PROVIDER_AUCTION_REQ@, host_id) == ControlTopic::ProviderAuction,
{
    reveal_strlit("provauction.request");
    reveal_strlit("auction.request");
    reveal_strlit("actor.launch");
    reveal_strlit("actor.terminate");
    reveal_strlit("provider.launch");
    reveal_strlit("provider.terminate");
    let s = head + PROVIDER_AUCTION_REQ@;
    let n = s.len();
    assert(s.last() == 't');
    assert(s.subrange(n - AUCTION_REQ@.len(), n as int) =~= AUCTION_REQ@);
    assert(s.subrange(n - PROVIDER_AUCTION_REQ@.len(), n as int) =~= PROVIDER_AUCTION_REQ@);
    lemma_ends_last(s, LAUNCH_ACTOR@);
    lemma_ends_last(s, TERMINATE_ACTOR@);
    lemma_ends_last(s, LAUNCH_PROVIDER@);
    lemma_ends_last(s, TERMINATE_PROVIDER@);
}

proof fn lemma_ends_last(s: Seq<char>, pat: Seq<char>)
    requires
        pat.len() > 0,
    ensures
        ends(s, pat) ==> s.len() > 0 && s.last() == pat.last(),
{
    if ends(s, pat) {
        assert(s.subrange(s.len() - pat.len(), s.len() as int)[pat.len() - 1] == pat.last());
    }
}

/// Whether the labels of a host meet all constraints.
pub open spec fn satisfied(
    labels: Map<Seq<char>, Seq<char>>,
    constraints: Map<Seq<char>, Seq<char>>,
) -> bool {
    forall|k: Seq<char>| #[trigger]
        constraints.contains_key(k) ==> labels.contains_key(k) && labels[k] == constraints[k]
}

/// Whether the labels of a host meet all constraints.
pub fn host_satifies_constraints(
    labels: &Table<String, String>,
    constraints: &Table<String, String>,
) -> (r: bool)
    ensures
        r == satisfied(text_map(labels@), text_map(constraints@)),
{
    let n: usize = constraints.len();
    let mut i: usize = 0;
    while i < n
        invariant
            i <= n,
            n == constraints.keys().len(),
            constraints.listed(),
            forall|j: int|
                0 <= j < i ==> text_map(labels@).contains_key(#[trigger] constraints.keys()[j])
                    && text_map(labels@)[constraints.keys()[j]] == text_map(
                    constraints@,
                )[constraints.keys()[j]],
        decreases n - i,
    {
        let label = constraints.key_at(i);
        let val = constraints.value_at(i);
        assert(text_map(constraints@).contains_key(label@));
        match labels.get(label) {
            Some(v) => {
                if !same(v.as_str(), val.as_str()) {
                    assert(text_map(labels@)[label@] != text_map(constraints@)[label@]);
                    return false;
                }
            },
            None => {
                assert(!text_map(labels@).contains_key(label@));
                return false;
            },
        }
        i += 1;
    }
    proof {
        assert forall|k: Seq<char>| #[trigger]
            text_map(constraints@).contains_key(k) implies text_map(labels@).contains_key(k)
            && text_map(labels@)[k] == text_map(constraints@)[k] by {
            assert(constraints@.dom().contains(k));
            assert(constraints.keys().contains(k));
            let j = choose|j: int| 0 <= j < constraints.keys().len() && constraints.keys()[j] == k;
            assert(constraints.keys()[j] == k);
        }
    }
    true
}

/// Whether a host responds to an auction: only where what is auctioned does not run
/// in it already, and where its labels meet the constraints.
pub fn bids(
    image_map: &Table<String, String>,
    labels: &Table<String, String>,
    reference: &str,
    constraints: &Table<String, String>,
) -> (r: bool)
    ensures
        r == (!image_map@.contains_key(reference@) && satisfied(
            text_map(labels@),
            text_map(constraints@),
        )),
{
    if image_map.contains_key(&reference.to_string()) {
        false
    } else {
        host_satifies_constraints(labels, constraints)
    }
}

/// Whether a command to terminate something is passed on: only where it runs.
pub fn accepts_termination(image_map: &Table<String, String>, reference: &str) -> (r: bool)
    ensures
        r == image_map@.contains_key(reference@),
{
    image_map.contains_key(&reference.to_string())
}

/// What an inventory request asks for
#[derive(Debug, Clone, Copy, PartialEq, Eq, Structural)]
pub enum InventoryTopic {
    Hosts,
    Actors,
    Bindings,
    Capabilities,
}

/// What an inventory request on a subject asks for, if it asks for anything.
pub open spec fn inventory_of(subject: Seq<char>) -> Option<InventoryTopic> {
    if holds(subject, INVENTORY_HOSTS@) {
        Some(InventoryTopic::Hosts)
    } else if holds(subject, INVENTORY_ACTORS@) {
        Some(InventoryTopic::Actors)
    } else if holds(subject, INVENTORY_BINDINGS@) {
        Some(InventoryTopic::Bindings)
    } else if holds(subject, INVENTORY_CAPABILITIES@) {
        Some(InventoryTopic::Capabilities)
    } else {
        None
    }
}

/// What an inventory request on a subject asks for, or the text of the complaint.
pub fn inventory_topic(subject: &str) -> (r: Result<InventoryTopic, String>)
    ensures
        r is Ok == inventory_of(subject@) is Some,
        r is Ok ==> Some(r->Ok_0) == inventory_of(subject@),
        r is Err ==> r->Err_0@ == "Bad inventory topic!"@,
{
    if contains(subject, INVENTORY_HOSTS) {
        Ok(InventoryTopic::Hosts)
    } else if contains(subject, INVENTORY_ACTORS) {
        Ok(InventoryTopic::Actors)
    } else if contains(subject, INVENTORY_BINDINGS) {
        Ok(InventoryTopic::Bindings)
    } else if contains(subject, INVENTORY_CAPABILITIES) {
        Ok(InventoryTopic::Capabilities)
    } else {
        Err("Bad inventory topic!".to_string())
    }
}

/// An overview of a host
pub struct HostProfile {
    pub id: String,
    pub labels: Table<String, String>,
    /// Host uptime in milliseconds
    pub uptime_ms: u128,
}

/// The overview that a host gives of itself. Its age is unknown where the clock has
/// gone backwards.
pub fn respond_with_host(host_id: &str, uptime_ms: Option<u128>, labels: &Table<String, String>) -> (r:
    HostProfile)
    ensures
        r.id@ == host_id@,
        text_map(r.labels@) == text_map(labels@),
        r.uptime_ms == (match uptime_ms {
            Some(u) => u,
            None => 0,
        }),
{
    HostProfile {
        id: host_id.to_string(),
        labels: copy_table(labels),
        uptime_ms: match uptime_ms {
            Some(u) => u,
            None => 0,
        },
    }
}

/// The claims of all actors in a host.
pub fn respond_with_actors(claims: &ClaimsMap) -> (r: Vec<Claims<ActorMetadata>>)
    ensures
        claims.listed(),
        r@.len() == claims.keys().len(),
        forall|i: int| 0 <= i < r@.len() ==> (#[trigger] r@[i])@ == claims@[claims.keys()[i]]@,
{
    let mut out: Vec<Claims<ActorMetadata>> = Vec::new();
    let n: usize = claims.len();
    let mut i: usize = 0;
    while i < n
        invariant
            i <= n,
            n == claims.keys().len(),
            out@.len() == i,
            forall|j: int| 0 <= j < i ==> (#[trigger] out@[j])@ == claims@[claims.keys()[j]]@,
        decreases n - i,
    {
        out.push(claims.value_at(i).copy());
        i += 1;
    }
    out
}

/// A binding as a host tells of it.
pub open spec fn binding_of(k: BindingKeyView, c: CapabilityConfiguration) -> BindingView {
    BindingView {
        actor: k.0,
        capability_id: k.1,
        binding_name: k.2,
        configuration: c@.values,
    }
}

/// All bindings in a host.
pub fn respond_with_bindings(bindings: &BindingsList) -> (r: Vec<Binding>)
    ensures
        bindings.listed(),
        r@.len() == bindings.keys().len(),
        forall|i: int|
            0 <= i < r@.len() ==> (#[trigger] r@[i])@ == binding_of(
                bindings.keys()[i],
                bindings@[bindings.keys()[i]],
            ),
{
    let mut items: Vec<Binding> = Vec::new();
    let n: usize = bindings.len();
    let mut i: usize = 0;
    while i < n
        invariant
            i <= n,
            n == bindings.keys().len(),
            items@.len() == i,
            forall|j: int|
                0 <= j < i ==> (#[trigger] items@[j])@ == binding_of(
                    bindings.keys()[j],
                    bindings@[bindings.keys()[j]],
                ),
        decreases n - i,
    {
        let k = bindings.key_at(i);
        let v = bindings.value_at(i);
        items.push(
            Binding {
                actor: k.actor.clone(),
                capability_id: k.capid.clone(),
                binding_name: k.binding.clone(),
                configuration: copy_table(&v.values),
            },
        );
        i += 1;
    }
    items
}

/// A capability provider as a host tells of it
pub struct HostedCapability {
    pub binding_name: String,
    pub descriptor: CapabilityDescriptor,
}

/// All capability providers in a host.
pub fn respond_with_caps(caps: &Table<RouteKey, CapabilityDescriptor>) -> (r: Vec<HostedCapability>)
    ensures
        caps.listed(),
        r@.len() == caps.keys().len(),
        forall|i: int|
            0 <= i < r@.len() ==> (#[trigger] r@[i]).binding_name@ == caps.keys()[i].0
                && r@[i].descriptor@ == caps@[caps.keys()[i]]@,
{
    let mut out: Vec<HostedCapability> = Vec::new();
    let n: usize = caps.len();
    let mut i: usize = 0;
    while i < n
        invariant
            i <= n,
            n == caps.keys().len(),
            out@.len() == i,
            forall|j: int|
                0 <= j < i ==> (#[trigger] out@[j]).binding_name@ == caps.keys()[j].0
                    && out@[j].descriptor@ == caps@[caps.keys()[j]]@,
        decreases n - i,
    {
        let k = caps.key_at(i);
        out.push(
            HostedCapability {
                binding_name: k.binding_name.clone(),
                descriptor: caps.value_at(i).copy(),
            },
        );
        i += 1;
    }
    out
}

/// What becomes of an invocation that was received, by the result of its check: a
/// response that refuses it, or none where it goes on to its target.
pub fn reject_or_deliver(inv: &Invocation, check: Result<(), Error>) -> (r: Option<InvocationResponse>)
    ensures
        r is Some == check is Err,
        r is Some && detail(check->Err_0@) is Some ==> r->0@ == error_response(
            inv@,
            "Antiforgery check failure: "@ + (preamble(check->Err_0@) + detail(check->Err_0@)->0),
        ),
        r is Some ==> r->0@.invocation_id == inv@.id && r->0@.msg.len() == 0 && r->0@.error is Some,
        r is Some ==> begins(
            r->0@.error->0,
            "Antiforgery check failure: "@ + preamble(check->Err_0@),
        ),
{
    match check {
        Ok(_) => None,
        Err(e) => {
            let why = e.to_string();
            let text = "Antiforgery check failure: ".to_string().concat(why.as_str());
            proof {
                let head = "Antiforgery check failure: "@;
                let n = preamble(e@).len() as int;
                assert(text@.subrange(0, head.len() + n) =~= head + why@.subrange(0, n));
            }
            Some(InvocationResponse::error(inv, text.as_str()))
        },
    }
}

/// The text of a refusal, by the error that the check has found.
pub open spec fn refusal_response(inv: InvocationView, f: Failure, resp: InvocationResponse) -> bool {
    &&& resp@.invocation_id == inv.id
    &&& resp@.msg.len() == 0
    &&& resp@.error is Some
    &&& begins(resp@.error->0, "Antiforgery check failure: "@ + preamble(f))
    &&& detail(f) is Some ==> resp@ == error_response(
        inv,
        "Antiforgery check failure: "@ + (preamble(f) + detail(f)->0),
    )
}

/// This function is invoked any time an invocation is _received_ by the message bus.
/// Where the invocation passes the check, it goes on to its target; else the result
/// is the response that refuses it.
pub fn handle_invocation(inv: &Invocation) -> (r: Option<InvocationResponse>)
    requires
        admissible(inv@.encoded_claims),
    ensures
        exists|failure: Option<Failure>|
            {
                &&& #[trigger] antiforgery_outcome(inv@, failure)
                &&& r is Some == failure is Some
                &&& r is Some ==> refusal_response(inv@, failure->0, r->0)
            },
{
    let check = inv.validate_antiforgery();
    let ghost failure = failure_of(check);
    let r = reject_or_deliver(inv, check);
    assert(antiforgery_outcome(inv@, failure));
    r
}

/// Handles an invocation whose token may be of any form. Of one whose token cannot
/// be checked it says nothing; such an invocation goes nowhere.
pub fn try_handle_invocation(inv: &Invocation) -> (r: Option<Option<InvocationResponse>>)
    ensures
        admissible(inv@.encoded_claims) ==> r is Some,
        r is Some ==> exists|failure: Option<Failure>|
            {
                &&& #[trigger] antiforgery_outcome(inv@, failure)
                &&& r->0 is Some == failure is Some
                &&& r->0 is Some ==> refusal_response(inv@, failure->0, r->0->0)
            },
        r is Some && r->0 is None ==> admissible(inv@.encoded_claims),
{
    match inv.try_validate_antiforgery() {
        None => None,
        Some(check) => {
            let ghost failure = failure_of(check);
            let r = reject_or_deliver(inv, check);
            assert(antiforgery_outcome(inv@, failure));
            Some(r)
        },
    }
}

} // verus!
