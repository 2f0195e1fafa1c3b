//! The subjects under which actors, capability providers and hosts are reached.
use vstd::prelude::*;

use crate::claims::text_view;
use crate::text::{
    after, ascii, ascii_lower, before, begins, lowercase, replace_char, replaced, same_but_case,
    to_lowercase,
};

pub mod inproc;
pub mod lattice;

verus! {

/// The scheme of the URLs that name the two ends of an invocation
pub const URL_SCHEME: &'static str = "wasmbus";

/// The part of a subject that all subjects of a namespace begin with.
pub open spec fn prefix_of(ns: Option<Seq<char>>) -> Seq<char> {
    match ns {
        Some(s) => s + ".wasmbus"@,
        None => "wasmbus"@,
    }
}

/// The view of an optional namespace.
pub open spec fn ns_view(ns: Option<&str>) -> Option<Seq<char>> {
    match ns {
        Some(s) => Some(s@),
        None => None,
    }
}

pub open spec fn normalized_capid(capid: Seq<char>) -> Seq<char> {
    replaced(replaced(lowercase(capid), ':', '.'), ' ', '_')
}

pub open spec fn actor_subject_of(ns: Option<Seq<char>>, actor: Seq<char>) -> Seq<char> {
    prefix_of(ns) + ".actor."@ + actor
}

pub open spec fn provider_subject_of(
    ns: Option<Seq<char>>,
    capid: Seq<char>,
    binding: Seq<char>,
) -> Seq<char> {
    prefix_of(ns) + ".provider."@ + normalized_capid(capid) + "."@ + binding
}

pub open spec fn bound_subject_of(
    ns: Option<Seq<char>>,
    capid: Seq<char>,
    binding: Seq<char>,
    actor: Seq<char>,
) -> Seq<char> {
    provider_subject_of(ns, capid, binding) + "."@ + actor
}

/// An optional namespace by reference.
pub fn ns_ref(ns: &Option<String>) -> (r: Option<&str>)
    ensures
        ns_view(r) == text_view(*ns),
{
    match ns {
        Some(s) => Some(s.as_str()),
        None => None,
    }
}

/// The part of a subject that all subjects of a namespace begin with.
pub fn nsprefix(ns: Option<&str>) -> (r: String)
    ensures
        r@ == prefix_of(ns_view(ns)),
{
    match ns {
        Some(s) => {
            let mut p = s.to_string();
            p.append(".wasmbus");
            p
        },
        None => "wasmbus".to_string(),
    }
}

/// The subject on which an actor takes its invocations.
pub fn actor_subject(ns: Option<&str>, actor: &str) -> (r: String)
    ensures
        r@ == actor_subject_of(ns_view(ns), actor@),
{
    nsprefix(ns).concat(".actor.").concat(actor)
}

/// The subject on which a capability provider takes the invocations that need
/// no binding.
pub fn provider_subject(ns: Option<&str>, capid: &str, binding: &str) -> (r: String)
    ensures
        r@ == provider_subject_of(ns_view(ns), capid@, binding@),
{
    nsprefix(ns).concat(".provider.").concat(normalize_capid(capid).as_str()).concat(".").concat(
        binding,
    )
}

/// By convention most of the waSCC ecosystem uses a "group:item" string
/// for the capability IDs, e.g. "wascc:messaging" or "gpio:relay". To
/// accommodate message broker subjects that might not work with the ":"
/// character, we normalize the segments to dot-separated.
pub fn normalize_capid(capid: &str) -> (r: String)
    ensures
        r@ == normalized_capid(capid@),
{
    let lower = to_lowercase(capid);
    let dotted = replace_char(lower.as_str(), ':', '.');
    replace_char(dotted.as_str(), ' ', '_')
}

/// A normalized capability ID holds neither a colon nor a space, so that it can stand
/// in a subject.
pub proof fn normalized_capids_suit_subjects(capid: Seq<char>)
    ensures
        !normalized_capid(capid).contains(':'),
        !normalized_capid(capid).contains(' '),
{
}

/// To normalize a capability ID again changes nothing.
pub proof fn normalizing_settles(capid: Seq<char>)
    requires
        ascii(capid),
    ensures
        normalized_capid(normalized_capid(capid)) == normalized_capid(capid),
{
    let n = normalized_capid(capid);
    assert(ascii(n));
    assert(normalized_capid(n) =~= n);
}

/// Of any letters: capability IDs with the same lower-case equivalent are normalized alike,
/// and to normalize one again changes nothing where lower-casing it again does not.
pub proof fn normalizing_follows_lower_case(capid: Seq<char>, other: Seq<char>)
    ensures
        lowercase(capid) == lowercase(other) ==> normalized_capid(capid) == normalized_capid(other),
        lowercase(normalized_capid(capid)) == normalized_capid(capid) ==> normalized_capid(
            normalized_capid(capid),
        ) == normalized_capid(capid),
{
    let n = normalized_capid(capid);
    normalized_capids_suit_subjects(capid);
    assert(replaced(n, ':', '.') =~= n) by {
        assert forall|i: int| 0 <= i < n.len() implies n[i] != ':' by {
            assert(n.contains(n[i]));
        }
    }
    assert(replaced(n, ' ', '_') =~= n) by {
        assert forall|i: int| 0 <= i < n.len() implies n[i] != ' ' by {
            assert(n.contains(n[i]));
        }
    }
}

/// Capability IDs that differ only in the case of letters are normalized alike.
pub proof fn normalizing_ignores_case(capid: Seq<char>, other: Seq<char>)
    requires
        ascii(capid),
        same_but_case(capid, other),
    ensures
        normalized_capid(capid) == normalized_capid(other),
{
    assert forall|i: int| 0 <= i < other.len() implies (#[trigger] other[i] as u32) < 128 by {
        assert(ascii_lower(capid[i]) == ascii_lower(other[i]));
    }
    assert(lowercase(capid) =~= lowercase(other));
}

/// The subject of the private conversation between an actor and a capability
/// provider that it is bound to.
pub fn provider_subject_bound_actor(
    ns: Option<&str>,
    capid: &str,
    binding: &str,
    calling_actor: &str,
) -> (r: String)
    ensures
        r@ == bound_subject_of(ns_view(ns), capid@, binding@, calling_actor@),
{
    provider_subject(ns, capid, binding).concat(".").concat(calling_actor)
}

/// The subject on which all inventory requests are heard.
pub fn inventory_wildcard_subject(ns: Option<&str>) -> (r: String)
    ensures
        r@ == prefix_of(ns_view(ns)) + ".inventory.*"@,
{
    nsprefix(ns).concat(".inventory.*")
}

/// The subject on which events are published.
pub fn event_subject(ns: Option<&str>) -> (r: String)
    ensures
        r@ == prefix_of(ns_view(ns)) + ".events"@,
{
    nsprefix(ns).concat(".events")
}

/// A namespace of one segment: no dot occurs in it.
pub open spec fn one_segment(ns: Option<Seq<char>>) -> bool {
    ns matches Some(s) ==> !s.contains('.')
}

proof fn lemma_before_prefix(s: Seq<char>, t: Seq<char>, sep: char)
    requires
        !s.contains(sep),
    ensures
        before(s + seq![sep] + t, sep) == s,
        after(s + seq![sep] + t, sep) == Some(t),
    decreases s.len(),
{
    let whole = s + seq![sep] + t;
    if s.len() > 0 {
        assert(s.contains(s[0]));
        assert forall|c: char| s.skip(1).contains(c) implies s.contains(c) by {
            let i = choose|i: int| 0 <= i < s.skip(1).len() && s.skip(1)[i] == c;
            assert(s[i + 1] == c);
        }
        lemma_before_prefix(s.skip(1), t, sep);
        assert(whole.skip(1) =~= s.skip(1) + seq![sep] + t);
        assert(seq![s[0]] + s.skip(1) =~= s);
    } else {
        assert(whole.skip(1) =~= t);
        assert(s =~= Seq::<char>::empty());
    }
}

proof fn lemma_prefix_segments(ns: Option<Seq<char>>, rest: Seq<char>)
    requires
        one_segment(ns),
    ensures
        ns is None ==> before(prefix_of(ns) + "."@ + rest, '.') == "wasmbus"@ && after(
            prefix_of(ns) + "."@ + rest,
            '.',
        ) == Some(rest),
        ns is Some ==> before(prefix_of(ns) + "."@ + rest, '.') == ns->0 && after(
            prefix_of(ns) + "."@ + rest,
            '.',
        ) == Some("wasmbus."@ + rest),
{
    reveal_strlit("wasmbus");
    reveal_strlit(".wasmbus");
    reveal_strlit("wasmbus.");
    reveal_strlit(".");
    let whole = prefix_of(ns) + "."@ + rest;
    match ns {
        None => {
            assert(!"wasmbus"@.contains('.'));
            assert(whole =~= "wasmbus"@ + seq!['.'] + rest);
            lemma_before_prefix("wasmbus"@, rest, '.');
        },
        Some(s) => {
            assert(whole =~= s + seq!['.'] + ("wasmbus."@ + rest));
            lemma_before_prefix(s, "wasmbus."@ + rest, '.');
        },
    }
}

/// Namespaces keep subjects apart: under two different namespaces, each of one
/// segment, no subject is the same, whatever follows the two prefixes, as long as
/// neither remainder has `wasmbus` for its own first segment. No subject that
/// this library forms has.
pub proof fn namespaces_isolate(
    ns1: Option<Seq<char>>,
    ns2: Option<Seq<char>>,
    rest1: Seq<char>,
    rest2: Seq<char>,
)
    requires
        one_segment(ns1),
        one_segment(ns2),
        ns1 != ns2,
        before(rest1, '.') != "wasmbus"@,
        before(rest2, '.') != "wasmbus"@,
    ensures
        prefix_of(ns1) + "."@ + rest1 != prefix_of(ns2) + "."@ + rest2,
{
    lemma_prefix_segments(ns1, rest1);
    lemma_prefix_segments(ns2, rest2);
    reveal_strlit("wasmbus");
    reveal_strlit("wasmbus.");
    assert(!"wasmbus"@.contains('.'));
    assert("wasmbus."@ + rest1 =~= "wasmbus"@ + seq!['.'] + rest1);
    assert("wasmbus."@ + rest2 =~= "wasmbus"@ + seq!['.'] + rest2);
    lemma_before_prefix("wasmbus"@, rest1, '.');
    lemma_before_prefix("wasmbus"@, rest2, '.');
}

proof fn lemma_first_segment(head: Seq<char>, rest: Seq<char>)
    requires
        !head.contains('.'),
    ensures
        before(head + seq!['.'] + rest, '.') == head,
{
    lemma_before_prefix(head, rest, '.');
}

/// An actor in one namespace is never reached from another one: neither its own
/// subject nor a provider's subject coincides with a subject of the other.
pub proof fn actor_subjects_isolate(
    ns1: Option<Seq<char>>,
    ns2: Option<Seq<char>>,
    actor1: Seq<char>,
    actor2: Seq<char>,
    capid: Seq<char>,
    binding: Seq<char>,
)
    requires
        one_segment(ns1),
        one_segment(ns2),
        ns1 != ns2,
    ensures
        actor_subject_of(ns1, actor1) != actor_subject_of(ns2, actor2),
        actor_subject_of(ns1, actor1) != provider_subject_of(ns2, capid, binding),
        actor_subject_of(ns1, actor1) != bound_subject_of(ns2, capid, binding, actor2),
{
    reveal_strlit(".actor.");
    reveal_strlit(".provider.");
    reveal_strlit(".");
    reveal_strlit("actor");
    reveal_strlit("provider");
    reveal_strlit("wasmbus");
    let a1 = "actor"@ + seq!['.'] + actor1;
    let a2 = "actor"@ + seq!['.'] + actor2;
    let tail = normalized_capid(capid) + "."@ + binding;
    let p = "provider"@ + seq!['.'] + tail;
    let b = "provider"@ + seq!['.'] + (tail + "."@ + actor2);
    assert(!"actor"@.contains('.'));
    assert(!"provider"@.contains('.'));
    lemma_first_segment("actor"@, actor1);
    lemma_first_segment("actor"@, actor2);
    lemma_first_segment("provider"@, tail);
    lemma_first_segment("provider"@, tail + "."@ + actor2);
    assert("actor"@.len() == 5 && "provider"@.len() == 8 && "wasmbus"@.len() == 7);
    namespaces_isolate(ns1, ns2, a1, a2);
    namespaces_isolate(ns1, ns2, a1, p);
    namespaces_isolate(ns1, ns2, a1, b);
    assert(actor_subject_of(ns1, actor1) =~= prefix_of(ns1) + "."@ + a1);
    assert(actor_subject_of(ns2, actor2) =~= prefix_of(ns2) + "."@ + a2);
    assert(provider_subject_of(ns2, capid, binding) =~= prefix_of(ns2) + "."@ + p);
    assert(bound_subject_of(ns2, capid, binding, actor2) =~= prefix_of(ns2) + "."@ + b);
}

/// A namespace that reads like a provider of another one: its prefix goes on, behind that of
/// the other, as the subject of a provider does. No namespace of one segment does.
pub open spec fn reads_as_provider(ns: Option<Seq<char>>, other: Option<Seq<char>>) -> bool {
    begins(prefix_of(ns), prefix_of(other) + ".provider."@)
}

proof fn lemma_prefix_tells(ns1: Option<Seq<char>>, ns2: Option<Seq<char>>)
    ensures
        prefix_of(ns1) == prefix_of(ns2) ==> ns1 == ns2,
        prefix_of(ns1).len() > 0,
        prefix_of(ns1).last() == 's',
{
    reveal_strlit(".wasmbus");
    reveal_strlit("wasmbus");
    let p = prefix_of(ns1);
    let q = prefix_of(ns2);
    if p == q {
        match (ns1, ns2) {
            (Some(a), Some(b)) => {
                assert(a =~= p.take(p.len() - 8));
                assert(b =~= q.take(q.len() - 8));
            },
            (None, Some(b)) => {
                assert(p.len() == 7 && q.len() == b.len() + 8);
            },
            (Some(a), None) => {
                assert(q.len() == 7 && p.len() == a.len() + 8);
            },
            (None, None) => {},
        }
    }
}

/// Where one text is parted in two ways, and the second part begins further on, then the
/// first of its heads begins with the first of the other and with what follows there.
proof fn lemma_inner_head(
    p: Seq<char>,
    t: Seq<char>,
    r: Seq<char>,
    q: Seq<char>,
    u: Seq<char>,
    v: Seq<char>,
)
    requires
        p + t + r == q + u + v,
        p.len() < q.len(),
        q.last() == 's',
        u.len() > 0,
        u[0] == '.',
        t.len() >= 2,
        t[t.len() - 2] != 's',
        forall|i: int| 0 < i < t.len() - 1 ==> t[i] != '.',
    ensures
        begins(q, p + t),
{
    let s = p + t + r;
    let k = q.len() - p.len();
    assert(s == q + u + v);
    assert(s[q.len() as int] == '.');
    assert(s[q.len() - 1] == 's');
    if k < t.len() {
        assert(s[p.len() + k] == t[k]);
        assert(s[p.len() + k - 1] == t[k - 1]);
    }
    assert(q =~= s.take(q.len() as int));
    assert(q.subrange(0, (p + t).len() as int) =~= p + t);
}

/// No namespace of one segment reads like a provider of another one.
pub proof fn single_segments_read_plainly(ns: Option<Seq<char>>, other: Option<Seq<char>>)
    requires
        one_segment(ns),
    ensures
        !reads_as_provider(ns, other),
{
    reveal_strlit(".wasmbus");
    reveal_strlit("wasmbus");
    reveal_strlit(".provider.");
    if reads_as_provider(ns, other) {
        let p = prefix_of(ns);
        let head = prefix_of(other) + ".provider."@;
        let n = prefix_of(other).len() as int;
        assert(p.subrange(0, head.len() as int)[n] == '.');
        assert(p.subrange(0, head.len() as int)[n + 9] == '.');
        assert(p[n] == '.' && p[n + 9] == '.');
        match ns {
            Some(a) => {
                assert(n < a.len());
                assert(a.contains(a[n]));
            },
            None => {},
        }
    }
}

/// Providers of two namespaces are never reached on the same subject, nor is one of them
/// reached on a private subject of the other, unless one of the namespaces reads like a
/// provider of the other one.
pub proof fn provider_subjects_isolate(
    ns1: Option<Seq<char>>,
    ns2: Option<Seq<char>>,
    capid1: Seq<char>,
    capid2: Seq<char>,
    binding1: Seq<char>,
    binding2: Seq<char>,
    actor1: Seq<char>,
    actor2: Seq<char>,
)
    requires
        ns1 != ns2,
        !reads_as_provider(ns1, ns2),
        !reads_as_provider(ns2, ns1),
    ensures
        provider_subject_of(ns1, capid1, binding1) != provider_subject_of(ns2, capid2, binding2),
        provider_subject_of(ns1, capid1, binding1) != bound_subject_of(
            ns2,
            capid2,
            binding2,
            actor2,
        ),
        bound_subject_of(ns1, capid1, binding1, actor1) != bound_subject_of(
            ns2,
            capid2,
            binding2,
            actor2,
        ),
{
    let p = prefix_of(ns1) + ".provider."@;
    let q = prefix_of(ns2) + ".provider."@;
    let r1 = normalized_capid(capid1) + "."@ + binding1;
    let r2 = normalized_capid(capid2) + "."@ + binding2;
    let b1 = r1 + "."@ + actor1;
    let b2 = r2 + "."@ + actor2;
    assert(provider_subject_of(ns1, capid1, binding1) =~= p + r1);
    assert(provider_subject_of(ns2, capid2, binding2) =~= q + r2);
    assert(bound_subject_of(ns1, capid1, binding1, actor1) =~= p + b1);
    assert(bound_subject_of(ns2, capid2, binding2, actor2) =~= q + b2);
    lemma_provider_heads(ns1, ns2, r1, r2);
    lemma_provider_heads(ns1, ns2, r1, b2);
    lemma_provider_heads(ns1, ns2, b1, b2);
}

proof fn lemma_provider_heads(
    ns1: Option<Seq<char>>,
    ns2: Option<Seq<char>>,
    r1: Seq<char>,
    r2: Seq<char>,
)
    requires
        ns1 != ns2,
        !reads_as_provider(ns1, ns2),
        !reads_as_provider(ns2, ns1),
    ensures
        prefix_of(ns1) + ".provider."@ + r1 != prefix_of(ns2) + ".provider."@ + r2,
{
    reveal_strlit(".provider.");
    let p = prefix_of(ns1);
    let q = prefix_of(ns2);
    let t = ".provider."@;
    lemma_prefix_tells(ns1, ns2);
    lemma_prefix_tells(ns2, ns1);
    if p + t + r1 == q + t + r2 {
        if p.len() < q.len() {
            lemma_inner_head(p, t, r1, q, t, r2);
        } else if q.len() < p.len() {
            lemma_inner_head(q, t, r2, p, t, r1);
        } else {
            assert(p =~= (p + t + r1).take(p.len() as int));
            assert(q =~= (q + t + r2).take(q.len() as int));
        }
    }
}

/// Whatever the namespaces are, also those with several segments, an actor whose key holds no
/// dot is never reached on the subject of a provider in another namespace, nor on a private
/// one, unless its own namespace reads like a provider of the other one.
pub proof fn actors_are_no_remote_providers(
    ns1: Option<Seq<char>>,
    ns2: Option<Seq<char>>,
    actor: Seq<char>,
    capid: Seq<char>,
    binding: Seq<char>,
    caller: Seq<char>,
)
    requires
        !actor.contains('.'),
        !reads_as_provider(ns1, ns2),
    ensures
        actor_subject_of(ns1, actor) != provider_subject_of(ns2, capid, binding),
        actor_subject_of(ns1, actor) != bound_subject_of(ns2, capid, binding, caller),
{
    let r = normalized_capid(capid) + "."@ + binding;
    assert(provider_subject_of(ns2, capid, binding) =~= prefix_of(ns2) + ".provider."@ + r);
    assert(bound_subject_of(ns2, capid, binding, caller) =~= prefix_of(ns2) + ".provider."@ + (r
        + "."@ + caller));
    lemma_actor_heads(ns1, ns2, actor, r);
    lemma_actor_heads(ns1, ns2, actor, r + "."@ + caller);
}

proof fn lemma_actor_heads(
    ns1: Option<Seq<char>>,
    ns2: Option<Seq<char>>,
    actor: Seq<char>,
    r: Seq<char>,
)
    requires
        !actor.contains('.'),
        !reads_as_provider(ns1, ns2),
    ensures
        actor_subject_of(ns1, actor) != prefix_of(ns2) + ".provider."@ + r,
{
    reveal_strlit(".actor.");
    reveal_strlit(".provider.");
    let p = prefix_of(ns1);
    let q = prefix_of(ns2);
    let t = ".actor."@;
    let u = ".provider."@;
    lemma_prefix_tells(ns1, ns2);
    lemma_prefix_tells(ns2, ns1);
    let s = p + t + actor;
    if s == q + u + r {
        if p.len() < q.len() {
            lemma_inner_head(p, t, actor, q, u, r);
            let k = q.len() - p.len() - t.len();
            assert(s.len() == q.len() + u.len() + r.len());
            assert(0 <= k < actor.len());
            assert((q + u + r)[q.len() as int] == '.');
            assert(s[q.len() as int] == actor[k]);
            assert(actor.contains(actor[k]));
        } else if q.len() < p.len() {
            lemma_inner_head(q, u, r, p, t, actor);
        } else {
            assert(s[p.len() as int + 1] == 'a');
            assert((q + u + r)[q.len() as int + 1] == 'p');
        }
    }
}

/// Within one namespace two actors never share a subject.
pub proof fn actors_have_own_subjects(ns: Option<Seq<char>>, actor1: Seq<char>, actor2: Seq<char>)
    ensures
        actor_subject_of(ns, actor1) == actor_subject_of(ns, actor2) ==> actor1 == actor2,
{
    let p = prefix_of(ns) + ".actor."@;
    assert(actor_subject_of(ns, actor1).skip(p.len() as int) =~= actor1);
    assert(actor_subject_of(ns, actor2).skip(p.len() as int) =~= actor2);
}

/// Within one namespace an actor never shares a subject with a capability provider, nor
/// with the private conversations of one.
pub proof fn actors_and_providers_stay_apart(
    ns: Option<Seq<char>>,
    actor: Seq<char>,
    capid: Seq<char>,
    binding: Seq<char>,
    caller: Seq<char>,
)
    ensures
        actor_subject_of(ns, actor) != provider_subject_of(ns, capid, binding),
        actor_subject_of(ns, actor) != bound_subject_of(ns, capid, binding, caller),
{
    reveal_strlit(".actor.");
    reveal_strlit(".provider.");
    let n = prefix_of(ns).len() as int;
    assert(actor_subject_of(ns, actor)[n + 1] == 'a');
    assert(provider_subject_of(ns, capid, binding)[n + 1] == 'p');
    assert(bound_subject_of(ns, capid, binding, caller)[n + 1] == 'p');
}

proof fn lemma_last_dot(p: Seq<char>, a: Seq<char>, q: Seq<char>, b: Seq<char>)
    requires
        p.len() > 0,
        q.len() > 0,
        p.last() == '.',
        q.last() == '.',
        !a.contains('.'),
        !b.contains('.'),
        p + a == q + b,
    ensures
        p == q,
        a == b,
{
    let s = p + a;
    assert(s == q + b);
    if p.len() < q.len() {
        assert(s[q.len() - 1] == '.');
        assert(a[q.len() - 1 - p.len()] == '.');
        assert(a.contains('.'));
    } else if q.len() < p.len() {
        assert(s[p.len() - 1] == '.');
        assert(b[p.len() - 1 - q.len()] == '.');
        assert(b.contains('.'));
    }
    assert(p =~= s.take(p.len() as int));
    assert(q =~= s.take(q.len() as int));
    assert(a =~= s.skip(p.len() as int));
    assert(b =~= s.skip(q.len() as int));
}

/// Whatever the namespaces are, also those with several segments, actors whose
/// keys hold no dot never share a subject across namespaces: the subject tells
/// both the namespace and the actor.
pub proof fn actor_subject_tells_namespace(
    ns1: Option<Seq<char>>,
    ns2: Option<Seq<char>>,
    actor1: Seq<char>,
    actor2: Seq<char>,
)
    requires
        !actor1.contains('.'),
        !actor2.contains('.'),
        actor_subject_of(ns1, actor1) == actor_subject_of(ns2, actor2),
    ensures
        ns1 == ns2,
        actor1 == actor2,
{
    reveal_strlit(".actor.");
    let p = prefix_of(ns1) + ".actor."@;
    let q = prefix_of(ns2) + ".actor."@;
    assert(p.last() == '.' && q.last() == '.');
    lemma_last_dot(p, actor1, q, actor2);
    assert(prefix_of(ns1) =~= p.take(p.len() - 7));
    assert(prefix_of(ns2) =~= q.take(q.len() - 7));
    lemma_prefix_tells(ns1, ns2);
}

} // verus!
