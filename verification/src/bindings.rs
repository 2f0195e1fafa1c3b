//! Which actors are bound to which capability providers, and how.
use vstd::prelude::*;

use crate::bus::{bound_subject_of, ns_view, provider_subject_bound_actor};
use crate::codec::CapabilityConfiguration;
use crate::table::{lemma_filter_take, Table, TableKey};
use crate::text::{same, texts};

verus! {

/// A routing key is a combination of a capability ID and the binding name used for
/// that capability. Think of it as a unique or primary key for a capid+binding.
#[derive(Debug)]
pub struct RouteKey {
    pub binding_name: String,
    pub capid: String,
}

/// The view of a routing key: the binding name, then the capability ID.
impl View for RouteKey {
    type V = (Seq<char>, Seq<char>);

    open spec fn view(&self) -> (Seq<char>, Seq<char>) {
        (self.binding_name@, self.capid@)
    }
}

impl RouteKey {
    pub fn new(binding_name: &str, capid: &str) -> (r: RouteKey)
        ensures
            r@ == (binding_name@, capid@),
    {
        RouteKey { binding_name: binding_name.to_string(), capid: capid.to_string() }
    }
}

impl TableKey for RouteKey {
    fn same_key(&self, other: &Self) -> (r: bool) {
        same(self.binding_name.as_str(), other.binding_name.as_str()) && same(
            self.capid.as_str(),
            other.capid.as_str(),
        )
    }

    fn copy_key(&self) -> (r: Self) {
        RouteKey::new(self.binding_name.as_str(), self.capid.as_str())
    }
}

/// What a binding is known by: the actor, the capability ID and the binding name
#[derive(Debug)]
pub struct BindingKey {
    pub actor: String,
    pub capid: String,
    pub binding: String,
}

pub type BindingKeyView = (Seq<char>, Seq<char>, Seq<char>);

impl View for BindingKey {
    type V = BindingKeyView;

    open spec fn view(&self) -> BindingKeyView {
        (self.actor@, self.capid@, self.binding@)
    }
}

impl BindingKey {
    pub fn new(actor: &str, capid: &str, binding: &str) -> (r: BindingKey)
        ensures
            r@ == (actor@, capid@, binding@),
    {
        BindingKey {
            actor: actor.to_string(),
            capid: capid.to_string(),
            binding: binding.to_string(),
        }
    }
}

impl TableKey for BindingKey {
    fn same_key(&self, other: &Self) -> (r: bool) {
        same(self.actor.as_str(), other.actor.as_str()) && same(
            self.capid.as_str(),
            other.capid.as_str(),
        ) && same(self.binding.as_str(), other.binding.as_str())
    }

    fn copy_key(&self) -> (r: Self) {
        BindingKey::new(self.actor.as_str(), self.capid.as_str(), self.binding.as_str())
    }
}

/// The configuration of each binding
pub type BindingsList = Table<BindingKey, CapabilityConfiguration>;

/// The views of a list of binding keys.
pub open spec fn key_views(v: Seq<BindingKey>) -> Seq<BindingKeyView> {
    v.map_values(|k: BindingKey| k@)
}

/// Records that an actor is bound, with the given configuration.
pub fn record_binding(
    bindings: &mut BindingsList,
    actor: &str,
    capid: &str,
    binding: &str,
    config: CapabilityConfiguration,
)
    ensures
        final(bindings)@ == old(bindings)@.insert((actor@, capid@, binding@), config),
{
    bindings.insert(BindingKey::new(actor, capid, binding), config);
}

/// Forgets one binding.
pub fn remove_binding(bindings: &mut BindingsList, actor: &str, binding: &str, capid: &str)
    ensures
        final(bindings)@ == old(bindings)@.remove((actor@, capid@, binding@)),
{
    let _ = bindings.remove(&BindingKey::new(actor, capid, binding));
}

/// The binding keys of an actor.
pub open spec fn of_actor(actor: Seq<char>) -> spec_fn(BindingKeyView) -> bool {
    |k: BindingKeyView| k.0 == actor
}

/// The binding keys of a capability, under any binding name.
pub open spec fn of_capid(capid: Seq<char>) -> spec_fn(BindingKeyView) -> bool {
    |k: BindingKeyView| k.1 == capid
}

/// The binding keys of a capability under one binding name.
pub open spec fn of_capability(
    capid: Seq<char>,
    binding: Seq<char>,
) -> spec_fn(BindingKeyView) -> bool {
    |k: BindingKeyView| k.1 == capid && k.2 == binding
}

/// The bindings that are left when those with certain keys are taken out.
pub open spec fn without(
    m: Map<BindingKeyView, CapabilityConfiguration>,
    p: spec_fn(BindingKeyView) -> bool,
) -> Map<BindingKeyView, CapabilityConfiguration> {
    Map::new(|k: BindingKeyView| m.contains_key(k) && !p(k), |k: BindingKeyView| m[k])
}

/// The keys of the bindings of an actor.
pub fn bindings_of_actor(bindings: &BindingsList, actor: &str) -> (r: Vec<BindingKey>)
    ensures
        bindings.listed(),
        key_views(r@) == bindings.keys().filter(of_actor(actor@)),
{
    let mut out: Vec<BindingKey> = Vec::new();
    let n: usize = bindings.len();
    let mut i: usize = 0;
    proof {
        reveal(Seq::filter);
        assert(key_views(out@) =~= bindings.keys().take(0).filter(of_actor(actor@)));
    }
    while i < n
        invariant
            i <= n,
            n == bindings.keys().len(),
            key_views(out@) == bindings.keys().take(i as int).filter(of_actor(actor@)),
        decreases n - i,
    {
        let k = bindings.key_at(i);
        proof {
            lemma_filter_take(bindings.keys(), of_actor(actor@), i as int);
        }
        if same(k.actor.as_str(), actor) {
            let ghost prev = out@;
            out.push(k.copy_key());
            assert(key_views(out@) =~= key_views(prev).push(k@));
        }
        i += 1;
    }
    assert(bindings.keys().take(n as int) =~= bindings.keys());
    out
}

fn bindings_of_capability(bindings: &BindingsList, capid: &str, binding: &str) -> (r: Vec<
    BindingKey,
>)
    ensures
        bindings.listed(),
        key_views(r@) == bindings.keys().filter(of_capability(capid@, binding@)),
{
    let mut out: Vec<BindingKey> = Vec::new();
    let n: usize = bindings.len();
    let mut i: usize = 0;
    proof {
        reveal(Seq::filter);
        assert(key_views(out@) =~= bindings.keys().take(0).filter(of_capability(capid@, binding@)));
    }
    while i < n
        invariant
            i <= n,
            n == bindings.keys().len(),
            key_views(out@) == bindings.keys().take(i as int).filter(
                of_capability(capid@, binding@),
            ),
        decreases n - i,
    {
        let k = bindings.key_at(i);
        proof {
            lemma_filter_take(bindings.keys(), of_capability(capid@, binding@), i as int);
        }
        if same(k.capid.as_str(), capid) && same(k.binding.as_str(), binding) {
            let ghost prev = out@;
            out.push(k.copy_key());
            assert(key_views(out@) =~= key_views(prev).push(k@));
        }
        i += 1;
    }
    assert(bindings.keys().take(n as int) =~= bindings.keys());
    out
}

proof fn lemma_filter_contains<A>(s: Seq<A>, p: spec_fn(A) -> bool, x: A)
    ensures
        s.filter(p).contains(x) <==> s.contains(x) && p(x),
    decreases s.len(),
{
    reveal(Seq::filter);
    if s.len() > 0 {
        let t = s.drop_last();
        lemma_filter_contains(t, p, x);
        let f = t.filter(p);
        assert(s.contains(x) <==> t.contains(x) || s.last() == x) by {
            if s.contains(x) {
                let i = choose|i: int| 0 <= i < s.len() && s[i] == x;
                if i < t.len() {
                    assert(t[i] == x);
                }
            }
            if t.contains(x) {
                let i = choose|i: int| 0 <= i < t.len() && t[i] == x;
                assert(s[i] == x);
            }
            assert(s[s.len() - 1] == s.last());
        }
        if p(s.last()) {
            let g = f.push(s.last());
            assert(s.filter(p) == g);
            if f.contains(x) {
                let i = choose|i: int| 0 <= i < f.len() && f[i] == x;
                assert(g[i] == x);
            }
            assert(g[g.len() - 1] == s.last());
            if g.contains(x) && x != s.last() {
                let i = choose|i: int| 0 <= i < g.len() && g[i] == x;
                assert(f[i] == x);
            }
        }
    }
}

/// Takes out the entries with the given keys.
fn remove_all(bindings: &mut BindingsList, keys: &Vec<BindingKey>)
    ensures
        forall|k: BindingKeyView| #[trigger]
            final(bindings)@.contains_key(k) <==> old(bindings)@.contains_key(k) && !key_views(
                keys@,
            ).contains(k),
        forall|k: BindingKeyView| #[trigger]
            final(bindings)@.contains_key(k) ==> final(bindings)@[k] == old(bindings)@[k],
{
    let mut i: usize = 0;
    while i < keys.len()
        invariant
            i <= keys.len(),
            forall|k: BindingKeyView| #[trigger]
                bindings@.contains_key(k) <==> old(bindings)@.contains_key(k) && !key_views(
                    keys@.take(i as int),
                ).contains(k),
            forall|k: BindingKeyView| #[trigger]
                bindings@.contains_key(k) ==> bindings@[k] == old(bindings)@[k],
        decreases keys.len() - i,
    {
        let ghost before = bindings@;
        let _ = bindings.remove(&keys[i]);
        proof {
            let a = key_views(keys@.take(i as int));
            let b = key_views(keys@.take(i + 1));
            assert(b =~= a.push(keys@[i as int]@));
            assert forall|k: BindingKeyView| #[trigger]
                bindings@.contains_key(k) <==> old(bindings)@.contains_key(k) && !b.contains(k) by {
                if a.contains(k) {
                    let j = choose|j: int| 0 <= j < a.len() && a[j] == k;
                    assert(b[j] == k);
                }
                assert(b[i as int] == keys@[i as int]@);
                if b.contains(k) && k != keys@[i as int]@ {
                    let j = choose|j: int| 0 <= j < b.len() && b[j] == k;
                    assert(a[j] == k);
                }
                assert(bindings@.contains_key(k) <==> before.contains_key(k) && k
                    != keys@[i as int]@);
            }
        }
        i += 1;
    }
    assert(keys@.take(keys@.len() as int) =~= keys@);
}

/// Removes all bindings from a capability without notifying anyone
pub fn unbind_all_from_cap(bindings: &mut BindingsList, capid: &str, binding: &str)
    ensures
        final(bindings)@ == without(old(bindings)@, of_capability(capid@, binding@)),
{
    let keys = bindings_of_capability(bindings, capid, binding);
    let ghost start = *bindings;
    remove_all(bindings, &keys);
    proof {
        assert forall|k: BindingKeyView| #[trigger]
            bindings@.contains_key(k) <==> without(
                start@,
                of_capability(capid@, binding@),
            ).contains_key(k) by {
            lemma_filter_contains(start.keys(), of_capability(capid@, binding@), k);
            assert(start@.dom().contains(k) <==> start.keys().contains(k));
        }
        assert(bindings@ =~= without(start@, of_capability(capid@, binding@)));
    }
}

/// Takes out all bindings of an actor, and returns their keys.
pub fn unbind_actor(bindings: &mut BindingsList, actor: &str) -> (r: Vec<BindingKey>)
    ensures
        final(bindings)@ == without(old(bindings)@, of_actor(actor@)),
        old(bindings).listed(),
        key_views(r@) == old(bindings).keys().filter(of_actor(actor@)),
{
    let keys = bindings_of_actor(bindings, actor);
    let ghost start = *bindings;
    remove_all(bindings, &keys);
    proof {
        assert forall|k: BindingKeyView| #[trigger]
            bindings@.contains_key(k) <==> without(start@, of_actor(actor@)).contains_key(k) by {
            lemma_filter_contains(start.keys(), of_actor(actor@), k);
            assert(start@.dom().contains(k) <==> start.keys().contains(k));
        }
        assert(bindings@ =~= without(start@, of_actor(actor@)));
    }
    keys
}

/// The subject of the private conversation that a binding stands for.
pub open spec fn private_subject(ns: Option<Seq<char>>, k: BindingKeyView) -> Seq<char> {
    bound_subject_of(ns, k.1, k.2, k.0)
}

/// The private actor-provider comms subjects of a capability, all of which are to
/// be unsubscribed
pub fn unsub_all_bindings(bindings: &BindingsList, ns: Option<&str>, capid: &str) -> (r: Vec<String>)
    ensures
        bindings.listed(),
        texts(r@) == bindings.keys().filter(of_capid(capid@)).map_values(
            |k: BindingKeyView| private_subject(ns_view(ns), k),
        ),
{
    let mut out: Vec<String> = Vec::new();
    let n: usize = bindings.len();
    let mut i: usize = 0;
    let ghost f = |k: BindingKeyView| private_subject(ns_view(ns), k);
    proof {
        reveal(Seq::filter);
        assert(texts(out@) =~= bindings.keys().take(0).filter(of_capid(capid@)).map_values(f));
    }
    while i < n
        invariant
            i <= n,
            n == bindings.keys().len(),
            f == (|k: BindingKeyView| private_subject(ns_view(ns), k)),
            texts(out@) == bindings.keys().take(i as int).filter(of_capid(capid@)).map_values(f),
        decreases n - i,
    {
        let k = bindings.key_at(i);
        proof {
            lemma_filter_take(bindings.keys(), of_capid(capid@), i as int);
        }
        if same(k.capid.as_str(), capid) {
            let ghost prev = out@;
            out.push(
                provider_subject_bound_actor(
                    ns,
                    k.capid.as_str(),
                    k.binding.as_str(),
                    k.actor.as_str(),
                ),
            );
            proof {
                let g = bindings.keys().take(i as int).filter(of_capid(capid@));
                assert(texts(out@) =~= texts(prev).push(f(k@)));
                assert(g.push(k@).map_values(f) =~= g.map_values(f).push(f(k@)));
            }
        }
        i += 1;
    }
    assert(bindings.keys().take(n as int) =~= bindings.keys());
    out
}

/// Setting a binding and removing it again leaves the other bindings as they were,
/// and no binding with that key.
pub proof fn removal_undoes_binding(
    m: Map<BindingKeyView, CapabilityConfiguration>,
    k: BindingKeyView,
    config: CapabilityConfiguration,
)
    ensures
        m.insert(k, config).remove(k) == m.remove(k),
        !m.contains_key(k) ==> m.insert(k, config).remove(k) == m,
        m.insert(k, config)[k] == config,
{
    assert(m.insert(k, config).remove(k) =~= m.remove(k));
    if !m.contains_key(k) {
        assert(m.insert(k, config).remove(k) =~= m);
    }
}

/// An actor has one configuration per capability and binding name: to set a binding again
/// replaces it, to set it twice is to set it once, and all others keep theirs.
pub proof fn binding_again_replaces(
    m: Map<BindingKeyView, CapabilityConfiguration>,
    k: BindingKeyView,
    first: CapabilityConfiguration,
    second: CapabilityConfiguration,
    other: BindingKeyView,
)
    ensures
        m.insert(k, first).insert(k, second) == m.insert(k, second),
        m.insert(k, first).insert(k, first) == m.insert(k, first),
        other != k ==> (m.insert(k, first).contains_key(other) <==> m.contains_key(other)),
        other != k && m.contains_key(other) ==> m.insert(k, first)[other] == m[other],
{
    assert(m.insert(k, first).insert(k, second) =~= m.insert(k, second));
    assert(m.insert(k, first).insert(k, first) =~= m.insert(k, first));
}

/// Unbinding a capability leaves no binding of it under that name, and touches no
/// other binding.
pub proof fn unbinding_is_exact(
    m: Map<BindingKeyView, CapabilityConfiguration>,
    capid: Seq<char>,
    binding: Seq<char>,
    k: BindingKeyView,
)
    ensures
        k.1 == capid && k.2 == binding ==> !without(
            m,
            of_capability(capid, binding),
        ).contains_key(k),
        !(k.1 == capid && k.2 == binding) && m.contains_key(k) ==> without(
            m,
            of_capability(capid, binding),
        ).contains_key(k) && without(m, of_capability(capid, binding))[k] == m[k],
{
}

} // verus!
