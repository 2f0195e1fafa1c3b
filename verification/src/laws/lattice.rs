//! What the hosts of a lattice tell and ask each other.
use vstd::prelude::*;

use crate::authz::ClaimsMap;
use crate::bindings::{BindingsList, RouteKey};
use crate::bus::lattice::{
    accepts_termination, bids, check_connection, control_topic, discover_claims, found,
    found_in, get_env, host_satifies_constraints, instance_count, instance_count_failure,
    instances, instances_in, inventory_topic, keep_waiting, query_bindings, reject_or_deliver,
    respond_with_actors, respond_with_bindings, respond_with_caps, respond_with_host, Binding,
    ControlTopic, HostActors, HostProfile, HostedCapability, InventoryTopic,
};
use crate::bus::{nsprefix, prefix_of};
use crate::claims::{ActorMetadata, Claims};
use crate::codec::{text_map, CapabilityDescriptor};
use crate::errors::{Error, Failure};
use crate::inthost::{Invocation, InvocationResponse};
use crate::table::Table;
use crate::text::{ends, holds, occurs_at};

verus! {

/// In a subject that asks for one inventory, no other one is named, as long as the namespace
/// names none.
proof fn lemma_inventory(ns: Option<Seq<char>>, name: Seq<char>, word: Seq<char>)
    requires
        name.len() > 0,
        word.len() > 0,
        !name.contains('v'),
        !word.contains('.'),
        word[0] != 'w',
        ns is Some ==> !holds(ns->0, "inventory."@ + word),
    ensures
        holds(prefix_of(ns) + ".inventory."@ + name, "inventory."@ + word) ==> word[0] == name[0],
{
    reveal_strlit("wasmbus");
    reveal_strlit(".wasmbus");
    reveal_strlit(".inventory.");
    reveal_strlit("inventory.");
    let pat = "inventory."@ + word;
    let subject = prefix_of(ns) + ".inventory."@ + name;
    let n = prefix_of(ns).len() as int;
    if holds(subject, pat) {
        let p = choose|p: int| occurs_at(subject, pat, p);
        assert forall|i: int| 0 <= i < pat.len() implies #[trigger] subject[p + i] == pat[i] by {
            assert(subject.subrange(p, p + pat.len())[i] == pat[i]);
        }
        assert forall|i: int| 10 <= i < pat.len() implies pat[i] != '.' by {
            assert(pat[i] == word[i - 10]);
        }
        assert(subject[p + 2] == 'v' && pat[2] == 'v');
        assert(subject[p + 10] == pat[10]);
        assert(pat[10] == word[0]);
        assert forall|i: int| n - 7 <= i < subject.len() && i != n + 3 implies #[trigger] subject[i]
            != 'v' by {
            if i >= n + 11 {
                assert(subject[i] == name[i - n - 11]);
            }
        }
        match ns {
            None => {},
            Some(s) => {
                if p + pat.len() <= s.len() {
                    assert(s.subrange(p, p + pat.len()) =~= subject.subrange(p, p + pat.len()));
                    assert(occurs_at(s, pat, p));
                } else if p <= s.len() {
                    assert(subject[s.len() as int] == '.');
                    assert(subject[p + (s.len() - p)] == pat[s.len() - p]);
                    assert(subject[s.len() as int + 1] == 'w');
                    assert(s.len() - p == 9);
                }
            },
        }
        assert(p + 2 == n + 3);
        assert(subject[n + 11] == name[0]);
    }
}

proof fn lemma_asked(ns: Option<Seq<char>>, name: Seq<char>)
    ensures
        holds(prefix_of(ns) + ".inventory."@ + name, "inventory."@ + name),
{
    reveal_strlit(".inventory.");
    reveal_strlit("inventory.");
    let subject = prefix_of(ns) + ".inventory."@ + name;
    let pat = "inventory."@ + name;
    let p = prefix_of(ns).len() as int + 1;
    assert(subject.subrange(p, p + pat.len()) =~= pat);
    assert(occurs_at(subject, pat, p));
}

proof fn lemma_words()
    ensures
        "inventory.hosts"@ == "inventory."@ + "hosts"@,
        "inventory.actors"@ == "inventory."@ + "actors"@,
        "inventory.bindings"@ == "inventory."@ + "bindings"@,
        "inventory.capabilities"@ == "inventory."@ + "capabilities"@,
        "hosts"@.len() == 5 && "hosts"@[0] == 'h',
        "actors"@.len() == 6 && "actors"@[0] == 'a',
        "bindings"@.len() == 8 && "bindings"@[0] == 'b',
        "capabilities"@.len() == 12 && "capabilities"@[0] == 'c',
        !"hosts"@.contains('v') && !"hosts"@.contains('.'),
        !"actors"@.contains('v') && !"actors"@.contains('.'),
        !"bindings"@.contains('v') && !"bindings"@.contains('.'),
        !"capabilities"@.contains('v') && !"capabilities"@.contains('.'),
{
    reveal_strlit("inventory.");
    reveal_strlit("hosts");
    reveal_strlit("actors");
    reveal_strlit("bindings");
    reveal_strlit("capabilities");
    reveal_strlit("inventory.hosts");
    reveal_strlit("inventory.actors");
    reveal_strlit("inventory.bindings");
    reveal_strlit("inventory.capabilities");
    assert("inventory.hosts"@ =~= "inventory."@ + "hosts"@);
    assert("inventory.actors"@ =~= "inventory."@ + "actors"@);
    assert("inventory.bindings"@ =~= "inventory."@ + "bindings"@);
    assert("inventory.capabilities"@ =~= "inventory."@ + "capabilities"@);
}

/// In every namespace that does not itself name an inventory, the request for an inventory is
/// for the one that its subject names behind the prefix of the namespace: for hosts, actors,
/// bindings or capabilities.
pub proof fn inventory_requests_name_their_topic(
    ns: Option<&str>,
    prefix: String,
    name: Seq<char>,
    subject: &str,
    r: Result<InventoryTopic, String>,
)
    requires
        ns is Some ==> !holds(ns->0@, "inventory.hosts"@) && !holds(ns->0@, "inventory.actors"@)
            && !holds(ns->0@, "inventory.bindings"@) && !holds(
            ns->0@,
            "inventory.capabilities"@,
        ),
        call_ensures(nsprefix, (ns,), prefix),
        subject@ == prefix@ + ".inventory."@ + name,
        call_ensures(inventory_topic, (subject,), r),
    ensures
        name == "hosts"@ ==> r is Ok && r->Ok_0 == InventoryTopic::Hosts,
        name == "actors"@ ==> r is Ok && r->Ok_0 == InventoryTopic::Actors,
        name == "bindings"@ ==> r is Ok && r->Ok_0 == InventoryTopic::Bindings,
        name == "capabilities"@ ==> r is Ok && r->Ok_0 == InventoryTopic::Capabilities,
{
    lemma_words();
    let v = match ns {
        Some(s) => Some(s@),
        None => None,
    };
    lemma_asked(v, name);
    if name == "hosts"@ || name == "actors"@ || name == "bindings"@ || name == "capabilities"@ {
        lemma_inventory(v, name, "hosts"@);
        lemma_inventory(v, name, "actors"@);
        lemma_inventory(v, name, "bindings"@);
        lemma_inventory(v, name, "capabilities"@);
    }
}

/// Whatever the subject: where a request is for an inventory, the subject names it, and where
/// it names any, the request is for one.
pub proof fn inventories_are_asked_for_by_name(subject: &str, r: Result<InventoryTopic, String>)
    requires
        call_ensures(inventory_topic, (subject,), r),
    ensures
        r is Ok && r->Ok_0 == InventoryTopic::Hosts ==> holds(subject@, "inventory.hosts"@),
        r is Ok && r->Ok_0 == InventoryTopic::Actors ==> holds(subject@, "inventory.actors"@),
        r is Ok && r->Ok_0 == InventoryTopic::Bindings ==> holds(subject@, "inventory.bindings"@),
        r is Ok && r->Ok_0 == InventoryTopic::Capabilities ==> holds(
            subject@,
            "inventory.capabilities"@,
        ),
        holds(subject@, "inventory.hosts"@) || holds(subject@, "inventory.actors"@) || holds(
            subject@,
            "inventory.bindings"@,
        ) || holds(subject@, "inventory.capabilities"@) ==> r is Ok,
{
}

proof fn lemma_ends_tail(head: Seq<char>, pat: Seq<char>)
    ensures
        ends(head + pat, pat),
{
    let s = head + pat;
    assert(s.subrange(s.len() - pat.len(), s.len() as int) =~= pat);
}

proof fn lemma_ends_char(s: Seq<char>, pat: Seq<char>, back: int)
    requires
        0 < back <= pat.len(),
        ends(s, pat),
    ensures
        s.len() >= pat.len(),
        s[s.len() - back] == pat[pat.len() - back],
{
    assert(s.subrange(s.len() - pat.len(), s.len() as int)[pat.len() - back] == pat[pat.len()
        - back]);
}

/// A command that names a host is taken by that host for what the end of its subject says:
/// to launch or to terminate an actor or a provider.
pub proof fn commands_say_what_to_do(
    head: Seq<char>,
    command: Seq<char>,
    subject: &str,
    host_id: &str,
    r: ControlTopic,
)
    requires
        holds(subject@, host_id@),
        subject@ == head + command,
        call_ensures(control_topic, (subject, host_id), r),
    ensures
        command == "actor.launch"@ ==> r == ControlTopic::LaunchActor,
        command == "actor.terminate"@ ==> r == ControlTopic::TerminateActor,
        command == "provider.launch"@ ==> r == ControlTopic::LaunchProvider,
        command == "provider.terminate"@ ==> r == ControlTopic::TerminateProvider,
{
    reveal_strlit("actor.launch");
    reveal_strlit("actor.terminate");
    reveal_strlit("provider.launch");
    reveal_strlit("provider.terminate");
    let s = subject@;
    lemma_ends_tail(head, command);
    let n = command.len() as int;
    let h = head.len() as int;
    if command == "actor.terminate"@ || command == "provider.launch"@ || command
        == "provider.terminate"@ {
        assert(s[s.len() - 1] == command[n - 1]);
        assert(s[s.len() - 9] == command[n - 9]);
        assert(s[s.len() - 12] == command[n - 12]);
        if ends(s, "actor.launch"@) {
            lemma_ends_char(s, "actor.launch"@, 1);
            lemma_ends_char(s, "actor.launch"@, 9);
        }
        if ends(s, "actor.terminate"@) {
            lemma_ends_char(s, "actor.terminate"@, 1);
            lemma_ends_char(s, "actor.terminate"@, 12);
        }
        if ends(s, "provider.launch"@) {
            lemma_ends_char(s, "provider.launch"@, 1);
        }
    }
}

/// A request for an auction is taken by every host: for one of a provider or of an actor, as
/// the end of its subject says.
pub proof fn auctions_reach_every_host(
    head: Seq<char>,
    subject: &str,
    host_id: &str,
    r: ControlTopic,
)
    requires
        call_ensures(control_topic, (subject, host_id), r),
    ensures
        subject@ == head + "provauction.request"@ ==> r == ControlTopic::ProviderAuction,
        subject@ == head + "auction.request"@ && !ends(head, "prov"@) ==> r
            == ControlTopic::ActorAuction,
{
    reveal_strlit("actor.launch");
    reveal_strlit("actor.terminate");
    reveal_strlit("provider.launch");
    reveal_strlit("provider.terminate");
    reveal_strlit("provauction.request");
    reveal_strlit("auction.request");
    reveal_strlit("prov");
    let s = subject@;
    lemma_ends_tail(head, "provauction.request"@);
    lemma_ends_tail(head, "auction.request"@);
    if s == head + "provauction.request"@ || s == head + "auction.request"@ {
        assert(s[s.len() - 1] == 't');
        if ends(s, "actor.launch"@) {
            lemma_ends_char(s, "actor.launch"@, 1);
        }
        if ends(s, "actor.terminate"@) {
            lemma_ends_char(s, "actor.terminate"@, 1);
        }
        if ends(s, "provider.launch"@) {
            lemma_ends_char(s, "provider.launch"@, 1);
        }
        if ends(s, "provider.terminate"@) {
            lemma_ends_char(s, "provider.terminate"@, 1);
        }
        if s == head + "auction.request"@ && ends(s, "provauction.request"@) {
            lemma_ends_char(s, "provauction.request"@, 16);
            lemma_ends_char(s, "provauction.request"@, 17);
            lemma_ends_char(s, "provauction.request"@, 18);
            lemma_ends_char(s, "provauction.request"@, 19);
            let k = head.len() - 4;
            assert(head[k] == s[k] && head[k + 1] == s[k + 1] && head[k + 2] == s[k + 2]
                && head[k + 3] == s[k + 3]);
            assert(head.subrange(k, head.len() as int) =~= "prov"@);
        }
    }
}

/// A host that a command does not name takes it for nothing. What is neither a command nor an
/// auction is taken for nothing by all.
pub proof fn other_messages_are_ignored(subject: &str, host_id: &str, r: ControlTopic)
    requires
        call_ensures(control_topic, (subject, host_id), r),
        !ends(subject@, "auction.request"@),
        !ends(subject@, "provauction.request"@),
        !holds(subject@, host_id@) || (!ends(subject@, "actor.launch"@) && !ends(
            subject@,
            "actor.terminate"@,
        ) && !ends(subject@, "provider.launch"@) && !ends(subject@, "provider.terminate"@)),
    ensures
        r == ControlTopic::Other,
{
}

/// A host meets constraints exactly where it has every label that they ask for, with the value
/// that they ask for.
pub proof fn constraints_ask_for_labels(
    labels: &Table<String, String>,
    constraints: &Table<String, String>,
    r: bool,
)
    requires
        call_ensures(host_satifies_constraints, (labels, constraints), r),
    ensures
        r <==> (forall|k: Seq<char>| #[trigger]
            constraints@.contains_key(k) ==> labels@.contains_key(k) && labels@[k]@
                == constraints@[k]@),
{
    assert forall|k: Seq<char>| #[trigger]
        constraints@.contains_key(k) <==> text_map(constraints@).contains_key(k) by {}
    assert forall|k: Seq<char>| #[trigger]
        labels@.contains_key(k) <==> text_map(labels@).contains_key(k) by {}
    if r {
        assert forall|k: Seq<char>| #[trigger] constraints@.contains_key(k)
            implies labels@.contains_key(k)
            && labels@[k]@ == constraints@[k]@ by {
            assert(text_map(constraints@).contains_key(k));
        }
    } else if forall|k: Seq<char>| #[trigger]
        constraints@.contains_key(k) ==> labels@.contains_key(k) && labels@[k]@
            == constraints@[k]@ {
        assert forall|k: Seq<char>| #[trigger]
            text_map(constraints@).contains_key(k) implies text_map(labels@).contains_key(k)
            && text_map(labels@)[k] == text_map(constraints@)[k] by {
            assert(constraints@.contains_key(k));
        }
    }
}

/// Fewer constraints are met by more hosts: a host that meets some constraints meets every
/// selection of them, and meets no constraints at all.
pub proof fn fewer_constraints_are_met(
    labels: &Table<String, String>,
    constraints: &Table<String, String>,
    fewer: &Table<String, String>,
    met: bool,
    r: bool,
)
    requires
        call_ensures(host_satifies_constraints, (labels, constraints), met),
        call_ensures(host_satifies_constraints, (labels, fewer), r),
        met,
        forall|k: Seq<char>| #[trigger]
            fewer@.contains_key(k) ==> constraints@.contains_key(k) && constraints@[k]@
                == fewer@[k]@,
    ensures
        r,
{
    constraints_ask_for_labels(labels, constraints, met);
    constraints_ask_for_labels(labels, fewer, r);
}

/// A host bids for what it meets the constraints of and does not run. Once it runs there, it
/// does not bid any more, and takes the command to terminate it.
pub proof fn hosts_bid_for_what_they_lack(
    image_map: &Table<String, String>,
    labels: &Table<String, String>,
    reference: &str,
    constraints: &Table<String, String>,
    met: bool,
    bid: bool,
    ended: bool,
)
    requires
        call_ensures(host_satifies_constraints, (labels, constraints), met),
        call_ensures(bids, (image_map, labels, reference, constraints), bid),
        call_ensures(accepts_termination, (image_map, reference), ended),
    ensures
        ended <==> image_map@.contains_key(reference@),
        ended ==> !bid,
        !ended ==> (bid <==> met),
{
}

/// One more actor in a host adds one instance to the count where it is the actor that is asked
/// for, and none where it is another one. Where there is no host there is no instance, and a
/// host without actors adds none.
pub proof fn instances_add_up(
    hosts: &Vec<HostActors>,
    more: &Vec<HostActors>,
    c: Claims<ActorMetadata>,
    actor: &str,
    n: usize,
    m: usize,
)
    requires
        call_ensures(instance_count, (hosts, actor), n),
        call_ensures(instance_count, (more, actor), m),
        more@.len() > 0,
        (more@.len() == hosts@.len() && more@.drop_last() == hosts@.drop_last()
            && more@.last().actors@ == hosts@.last().actors@.push(c)) || (more@.drop_last()
            == hosts@ && more@.last().actors@ == seq![c]),
    ensures
        c@.subject == actor@ ==> m == n + 1,
        c@.subject != actor@ ==> m == n,
{
    let last = more@.last().actors@;
    assert(last.last() == c);
    if more@.drop_last() == hosts@ && last == seq![c] {
        assert(last.drop_last() =~= Seq::<Claims<ActorMetadata>>::empty());
        reveal_with_fuel(instances_in, 2);
    } else {
        assert(last.drop_last() =~= hosts@.last().actors@);
    }
}

/// Where no host is there, or all are without actors, nothing runs.
pub proof fn empty_lattices_run_nothing(hosts: &Vec<HostActors>, actor: &str, n: usize)
    requires
        call_ensures(instance_count, (hosts, actor), n),
        forall|i: int| 0 <= i < hosts@.len() ==> (#[trigger] hosts@[i]).actors@.len() == 0,
    ensures
        n == 0,
{
    lemma_no_instances(hosts@, actor@);
}

proof fn lemma_no_instances(hosts: Seq<HostActors>, actor: Seq<char>)
    requires
        forall|i: int| 0 <= i < hosts.len() ==> (#[trigger] hosts[i]).actors@.len() == 0,
    ensures
        instances(hosts, actor) == 0,
    decreases hosts.len(),
{
    if hosts.len() > 0 {
        lemma_no_instances(hosts.drop_last(), actor);
    }
}

/// The claims of an actor are those of the first that is found in the lattice, in the order of
/// the hosts and of their actors, whatever the host itself holds.
pub proof fn lattices_tell_claims(
    hosts: &Vec<HostActors>,
    local: &ClaimsMap,
    actor: &str,
    h: int,
    i: int,
    r: Option<Claims<ActorMetadata>>,
)
    requires
        call_ensures(discover_claims, (Some(hosts), local, actor), r),
        0 <= h < hosts@.len(),
        0 <= i < hosts@[h].actors@.len(),
        hosts@[h].actors@[i]@.subject == actor@,
        forall|g: int, j: int|
            0 <= g < h && 0 <= j < hosts@[g].actors@.len() ==> (
            #[trigger] hosts@[g].actors@[j])@.subject != actor@,
        forall|j: int| 0 <= j < i ==> (#[trigger] hosts@[h].actors@[j])@.subject != actor@,
    ensures
        r is Some,
        r->0@ == hosts@[h].actors@[i]@,
        r->0@.subject == actor@,
{
    lemma_found(hosts@, actor@, h, i);
}

proof fn lemma_found_in(actors: Seq<Claims<ActorMetadata>>, actor: Seq<char>, i: int)
    requires
        0 <= i <= actors.len(),
        i < actors.len() ==> actors[i]@.subject == actor,
        forall|j: int| 0 <= j < i ==> (#[trigger] actors[j])@.subject != actor,
    ensures
        found_in(actors, actor) == (if i < actors.len() {
            Some(actors[i]@)
        } else {
            None
        }),
    decreases actors.len(),
{
    if actors.len() > 0 && i > 0 {
        let rest = actors.skip(1);
        assert(actors[0]@.subject != actor);
        assert forall|j: int| 0 <= j < i - 1 implies (#[trigger] rest[j])@.subject != actor by {
            assert(rest[j] == actors[j + 1]);
        }
        lemma_found_in(rest, actor, i - 1);
    }
}

proof fn lemma_found(hosts: Seq<HostActors>, actor: Seq<char>, h: int, i: int)
    requires
        0 <= h <= hosts.len(),
        h < hosts.len() ==> 0 <= i < hosts[h].actors@.len() && hosts[h].actors@[i]@.subject
            == actor,
        forall|g: int, j: int|
            0 <= g < h && 0 <= j < hosts[g].actors@.len() ==> (
            #[trigger] hosts[g].actors@[j])@.subject != actor,
        h < hosts.len() ==> forall|j: int|
            0 <= j < i ==> (#[trigger] hosts[h].actors@[j])@.subject != actor,
    ensures
        found(hosts, actor) == (if h < hosts.len() {
            Some(hosts[h].actors@[i]@)
        } else {
            None
        }),
    decreases hosts.len(),
{
    if hosts.len() > 0 {
        if h == 0 {
            lemma_found_in(hosts[0].actors@, actor, i);
        } else {
            let rest = hosts.skip(1);
            lemma_found_in(hosts[0].actors@, actor, hosts[0].actors@.len() as int);
            assert forall|g: int, j: int|
                0 <= g < h - 1 && 0 <= j < rest[g].actors@.len() implies (
            #[trigger] rest[g].actors@[j])@.subject != actor by {
                assert(rest[g] == hosts[g + 1]);
                assert(hosts[g + 1].actors@[j]@.subject != actor);
            }
            if h < hosts.len() {
                assert(rest[h - 1] == hosts[h]);
                assert forall|j: int| 0 <= j < i implies (
                #[trigger] rest[h - 1].actors@[j])@.subject != actor by {
                    assert(hosts[h].actors@[j]@.subject != actor);
                }
            }
            lemma_found(rest, actor, h - 1, i);
        }
    }
}

/// Where the lattice does not know an actor, or there is none, the claims are those that the
/// host itself holds, if it holds any.
pub proof fn hosts_know_their_own_actors(
    hosts: Option<&Vec<HostActors>>,
    local: &ClaimsMap,
    actor: &str,
    r: Option<Claims<ActorMetadata>>,
)
    requires
        call_ensures(discover_claims, (hosts, local, actor), r),
        hosts is Some ==> forall|g: int, j: int|
            0 <= g < hosts->0@.len() && 0 <= j < hosts->0@[g].actors@.len() ==> (
            #[trigger] hosts->0@[g].actors@[j])@.subject != actor@,
    ensures
        r is Some <==> local@.contains_key(actor@),
        r is Some ==> r->0@ == local@[actor@]@,
{
    if hosts is Some {
        lemma_found(hosts->0@, actor@, hosts->0@.len() as int, 0);
    }
}

/// The bindings in a lattice are those of all hosts, one host after the other: the bindings of
/// one more host stand behind those of the others. Without hosts there are none.
pub proof fn bindings_of_all_hosts_count(
    hosts: Vec<Vec<Binding>>,
    more: Vec<Vec<Binding>>,
    r: Result<Vec<Binding>, Error>,
    q: Result<Vec<Binding>, Error>,
)
    requires
        call_ensures(query_bindings, (Ok(hosts),), r),
        call_ensures(query_bindings, (Ok(more),), q),
        more@.len() > 0,
        more@.drop_last() == hosts@,
    ensures
        r is Ok && q is Ok,
        q->Ok_0@ == r->Ok_0@ + more@.last()@,
        hosts@.len() == 0 ==> r->Ok_0@.len() == 0,
{
}

/// Where the hosts could not be asked, what went wrong is told as an error.
pub proof fn failed_queries_are_told(
    e: String,
    r: Result<Vec<Binding>, Error>,
    text: &str,
    count: Error,
    connected: bool,
    c: Result<(), Error>,
)
    requires
        call_ensures(query_bindings, (Err(e),), r),
        call_ensures(instance_count_failure, (text,), count),
        call_ensures(check_connection, (connected,), c),
    ensures
        r is Err,
        r->Err_0@ == Failure::HostCallFailure("Failed to query bindings from lattice : "@ + e@),
        count@ == Failure::HostCallFailure(
            "Failed to determine instance count for actor: "@ + text@,
        ),
        c is Ok <==> connected,
        c is Err ==> c->Err_0@ == Failure::MiscHost(
            "Attempted a bus invocation without a live bus connection"@,
        ),
{
}

/// A host tells of each of its actors once: of every actor that it holds the claims of, and of
/// no other.
pub proof fn hosts_tell_all_their_actors(claims: &ClaimsMap, r: Vec<Claims<ActorMetadata>>)
    requires
        call_ensures(respond_with_actors, (claims,), r),
    ensures
        forall|k: Seq<char>| #[trigger]
            claims@.contains_key(k) ==> exists|i: int|
                0 <= i < r@.len() && (#[trigger] r@[i])@ == claims@[k]@,
        forall|i: int|
            0 <= i < r@.len() ==> (#[trigger] r@[i])@ == claims@[claims.keys()[i]]@,
        forall|i: int|
            0 <= i < r@.len() ==> claims@.contains_key(#[trigger] claims.keys()[i]),
        claims.keys().no_duplicates(),
        r@.len() == claims.keys().len(),
{
    assert forall|k: Seq<char>| #[trigger] claims@.contains_key(k) implies exists|i: int|
        0 <= i < r@.len() && (#[trigger] r@[i])@ == claims@[k]@ by {
        assert(claims.keys().contains(k));
        let i = choose|i: int| 0 <= i < claims.keys().len() && claims.keys()[i] == k;
        assert(r@[i]@ == claims@[k]@);
    }
    assert forall|i: int| 0 <= i < r@.len() implies claims@.contains_key(
        #[trigger] claims.keys()[i],
    ) by {
        assert(claims.keys().contains(claims.keys()[i]));
    }
}

/// A host tells of each of its bindings once, by its actor, capability and name, and with its
/// values.
pub proof fn hosts_tell_all_their_bindings(bindings: &BindingsList, r: Vec<Binding>)
    requires
        call_ensures(respond_with_bindings, (bindings,), r),
    ensures
        forall|k: (Seq<char>, Seq<char>, Seq<char>)| #[trigger]
            bindings@.contains_key(k) ==> exists|i: int|
                0 <= i < r@.len() && (#[trigger] r@[i])@.actor == k.0 && r@[i]@.capability_id == k.1
                    && r@[i]@.binding_name == k.2 && r@[i]@.configuration
                    == bindings@[k]@.values,
        forall|i: int|
            0 <= i < r@.len() ==> bindings@.contains_key(
                (
                    (#[trigger] r@[i]).actor@,
                    r@[i].capability_id@,
                    r@[i].binding_name@,
                ),
            ),
        r@.len() == bindings.keys().len(),
{
    assert forall|k: (Seq<char>, Seq<char>, Seq<char>)| #[trigger]
        bindings@.contains_key(k) implies exists|i: int|
        0 <= i < r@.len() && (#[trigger] r@[i])@.actor == k.0 && r@[i]@.capability_id == k.1
            && r@[i]@.binding_name == k.2 && r@[i]@.configuration == bindings@[k]@.values by {
        assert(bindings.keys().contains(k));
        let i = choose|i: int| 0 <= i < bindings.keys().len() && bindings.keys()[i] == k;
        assert(r@[i]@.actor == k.0);
    }
    assert forall|i: int| 0 <= i < r@.len() implies bindings@.contains_key(
        ((#[trigger] r@[i]).actor@, r@[i].capability_id@, r@[i].binding_name@),
    ) by {
        assert(r@[i]@.actor == r@[i].actor@);
        assert(bindings.keys().contains(bindings.keys()[i]));
    }
}

/// A host tells of each of its capability providers once, by its name and with what it says of
/// itself.
pub proof fn hosts_tell_all_their_providers(
    caps: &Table<RouteKey, CapabilityDescriptor>,
    r: Vec<HostedCapability>,
)
    requires
        call_ensures(respond_with_caps, (caps,), r),
    ensures
        forall|k: (Seq<char>, Seq<char>)| #[trigger]
            caps@.contains_key(k) ==> exists|i: int|
                0 <= i < r@.len() && (#[trigger] r@[i]).binding_name@ == k.0 && r@[i].descriptor@
                    == caps@[k]@,
        r@.len() == caps.keys().len(),
        caps.keys().no_duplicates(),
{
    assert forall|k: (Seq<char>, Seq<char>)| #[trigger] caps@.contains_key(k) implies exists|
        i: int,
    |
        0 <= i < r@.len() && (#[trigger] r@[i]).binding_name@ == k.0 && r@[i].descriptor@
            == caps@[k]@ by {
        assert(caps.keys().contains(k));
        let i = choose|i: int| 0 <= i < caps.keys().len() && caps.keys()[i] == k;
        assert(r@[i].binding_name@ == k.0);
    }
}

/// A host gives its own identifier, its own labels and its age, which is none where the clock
/// does not tell.
pub proof fn hosts_tell_of_themselves(
    host_id: &str,
    uptime_ms: Option<u128>,
    labels: &Table<String, String>,
    r: HostProfile,
)
    requires
        call_ensures(respond_with_host, (host_id, uptime_ms, labels), r),
    ensures
        r.id@ == host_id@,
        uptime_ms is Some ==> r.uptime_ms == uptime_ms->0,
        uptime_ms is None ==> r.uptime_ms == 0,
        forall|k: Seq<char>| #[trigger] r.labels@.contains_key(k) <==> labels@.contains_key(k),
        forall|k: Seq<char>| #[trigger]
            r.labels@.contains_key(k) ==> r.labels@[k]@ == labels@[k]@,
{
    assert forall|k: Seq<char>| #[trigger] r.labels@.contains_key(k) <==> labels@.contains_key(
        k,
    ) by {
        assert(text_map(r.labels@).contains_key(k) <==> text_map(labels@).contains_key(k));
    }
    assert forall|k: Seq<char>| #[trigger] r.labels@.contains_key(k) implies r.labels@[k]@
        == labels@[k]@ by {
        assert(text_map(r.labels@)[k] == text_map(labels@)[k]);
    }
}

/// A variable counts where it is set and not empty, else the default does.
pub proof fn variables_have_defaults(value: Option<String>, default: &str, r: String)
    requires
        call_ensures(get_env, (value, default), r),
    ensures
        value is Some && value->0@.len() > 0 ==> r@ == value->0@,
        value is None || value->0@.len() == 0 ==> r@ == default@,
{
}

/// A host that goes down waits for what has not stopped yet, and no more than three times.
pub proof fn waiting_ends(pending: usize, tries: u8, r: bool)
    requires
        call_ensures(keep_waiting, (pending, tries), r),
    ensures
        r ==> pending > 0 && tries < 3,
        pending > 0 && tries < 3 ==> r,
{
}

/// An invocation goes on to its target exactly where it has passed its check. Else the response
/// has its identifier and an error that says so.
pub proof fn checked_invocations_go_on(
    inv: &Invocation,
    check: Result<(), Error>,
    r: Option<InvocationResponse>,
)
    requires
        call_ensures(reject_or_deliver, (inv, check), r),
    ensures
        r is None <==> check is Ok,
        r is Some ==> r->0@.invocation_id == inv@.id,
        r is Some ==> r->0@.msg.len() == 0,
        r is Some ==> r->0@.error is Some,
        r is Some ==> r->0@.error->0.len() >= "Antiforgery check failure: "@.len()
            && r->0@.error->0.subrange(0, "Antiforgery check failure: "@.len() as int)
            == "Antiforgery check failure: "@,
{
    if r is Some {
        let text = r->0@.error->0;
        let head = "Antiforgery check failure: "@;
        let whole = head + crate::errors::preamble(check->Err_0@);
        assert(text.subrange(0, whole.len() as int) == whole);
        assert(whole.subrange(0, head.len() as int) =~= head);
        assert(text.subrange(0, head.len() as int) =~= text.subrange(
            0,
            whole.len() as int,
        ).subrange(0, head.len() as int));
    }
}

/// An invocation that has not passed its check is answered with what the check has found.
pub proof fn refusals_say_what_was_found(
    inv: &Invocation,
    e: Error,
    r: Option<InvocationResponse>,
)
    requires
        call_ensures(reject_or_deliver, (inv, Err(e)), r),
        e@ is Authorization,
    ensures
        r is Some,
        r->0@.error is Some,
        r->0@.error->0 == "Antiforgery check failure: "@ + (
        "WebAssembly module authorization failure: "@ + e@->Authorization_0),
{
}

} // verus!
