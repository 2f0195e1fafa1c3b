//! Bindings, and the notices that follow when they go.
use vstd::prelude::*;

use crate::bindings::{
    bindings_of_actor, key_views, of_actor, of_capid, private_subject, record_binding,
    remove_binding, unbind_actor, unbind_all_from_cap, unsub_all_bindings, BindingKey,
    BindingsList,
};
use crate::bus::{bound_subject_of, ns_view, provider_subject_of};
use crate::claims::HostKey;
use crate::codec::{decoded_configuration, CapabilityConfiguration};
use crate::entity::EntityView;
use crate::inthost::Invocation;
use crate::messages::deconfigure_actor;
use crate::text::texts;

verus! {

/// A binding that was recorded is held, with its configuration, until it is removed. No other
/// binding is touched.
pub proof fn bindings_are_held_until_removed(
    bindings: &mut BindingsList,
    later: &mut BindingsList,
    actor: &str,
    capid: &str,
    binding: &str,
    config: CapabilityConfiguration,
)
    requires
        call_ensures(record_binding, (bindings, actor, capid, binding, config), ()),
        call_ensures(remove_binding, (later, actor, binding, capid), ()),
        *old(later) == *final(bindings),
    ensures
        final(bindings)@.contains_key((actor@, capid@, binding@)),
        final(bindings)@[(actor@, capid@, binding@)] == config,
        !final(later)@.contains_key((actor@, capid@, binding@)),
        forall|k: (Seq<char>, Seq<char>, Seq<char>)|
            k != (actor@, capid@, binding@) ==> (#[trigger] final(later)@.contains_key(k)
                <==> old(bindings)@.contains_key(k)),
        forall|k: (Seq<char>, Seq<char>, Seq<char>)| #[trigger]
            final(later)@.contains_key(k) ==> final(later)@[k] == old(bindings)@[k],
{
}

/// Where all bindings to a provider go, those and no others do.
pub proof fn providers_are_unbound(bindings: &mut BindingsList, capid: &str, binding: &str)
    requires
        call_ensures(unbind_all_from_cap, (bindings, capid, binding), ()),
    ensures
        forall|a: Seq<char>, c: Seq<char>, b: Seq<char>| #[trigger]
            final(bindings)@.contains_key((a, c, b)) <==> old(bindings)@.contains_key((a, c, b))
                && !(c == capid@ && b == binding@),
        forall|k: (Seq<char>, Seq<char>, Seq<char>)| #[trigger]
            final(bindings)@.contains_key(k) ==> final(bindings)@[k] == old(bindings)@[k],
{
}

/// Where all bindings of an actor go, those and no others do, and each of them is told of.
pub proof fn actors_are_unbound(
    bindings: &mut BindingsList,
    actor: &str,
    capid: Seq<char>,
    binding: Seq<char>,
    r: Vec<BindingKey>,
)
    requires
        call_ensures(unbind_actor, (bindings, actor), r),
    ensures
        forall|a: Seq<char>, c: Seq<char>, b: Seq<char>| #[trigger]
            final(bindings)@.contains_key((a, c, b)) <==> old(bindings)@.contains_key((a, c, b))
                && a != actor@,
        forall|k: (Seq<char>, Seq<char>, Seq<char>)| #[trigger]
            final(bindings)@.contains_key(k) ==> final(bindings)@[k] == old(bindings)@[k],
        old(bindings)@.contains_key((actor@, capid, binding)) ==> exists|i: int|
            0 <= i < r@.len() && (#[trigger] r@[i]).actor@ == actor@ && r@[i].capid@ == capid
                && r@[i].binding@ == binding,
        forall|i: int| 0 <= i < r@.len() ==> (#[trigger] r@[i]).actor@ == actor@,
{
    let p = of_actor(actor@);
    let keys = old(bindings).keys();
    let gone = keys.filter(p);
    let k = (actor@, capid, binding);
    assert(key_views(r@).len() == r@.len());
    if old(bindings)@.contains_key(k) {
        assert(keys.contains(k));
        let j = choose|j: int| 0 <= j < keys.len() && keys[j] == k;
        keys.lemma_filter_contains(p, j);
        let i = choose|i: int| 0 <= i < gone.len() && gone[i] == k;
        assert(key_views(r@)[i] == r@[i]@);
        assert(r@[i]@ == k);
    }
    assert forall|i: int| 0 <= i < r@.len() implies (#[trigger] r@[i]).actor@ == actor@ by {
        keys.lemma_filter_pred(p, i);
        assert(key_views(r@)[i] == r@[i]@);
    }
}

/// The bindings of an actor are listed: each of them, and no other.
pub proof fn bindings_of_actors_are_listed(
    bindings: &BindingsList,
    actor: &str,
    capid: Seq<char>,
    binding: Seq<char>,
    i: int,
    r: Vec<BindingKey>,
)
    requires
        call_ensures(bindings_of_actor, (bindings, actor), r),
    ensures
        bindings@.contains_key((actor@, capid, binding)) ==> exists|j: int|
            0 <= j < r@.len() && (#[trigger] r@[j]).actor@ == actor@ && r@[j].capid@ == capid
                && r@[j].binding@ == binding,
        0 <= i < r@.len() ==> r@[i].actor@ == actor@ && bindings@.contains_key(
            (r@[i].actor@, r@[i].capid@, r@[i].binding@),
        ),
{
    let p = of_actor(actor@);
    let keys = bindings.keys();
    let kept = keys.filter(p);
    let k = (actor@, capid, binding);
    assert(key_views(r@).len() == r@.len());
    if bindings@.contains_key(k) {
        assert(keys.contains(k));
        let j = choose|j: int| 0 <= j < keys.len() && keys[j] == k;
        keys.lemma_filter_contains(p, j);
        let n = choose|n: int| 0 <= n < kept.len() && kept[n] == k;
        assert(key_views(r@)[n] == r@[n]@);
        assert(r@[n]@ == k);
    }
    if 0 <= i < r@.len() {
        keys.lemma_filter_pred(p, i);
        assert(kept.contains(kept[i]));
        keys.lemma_filter_contains_rev(p, kept[i]);
        assert(key_views(r@)[i] == r@[i]@);
    }
}

/// The private subjects of a capability are those of its bindings: of each, and of no other.
pub proof fn private_subjects_are_those_of_bindings(
    bindings: &BindingsList,
    ns: Option<&str>,
    capid: &str,
    actor: Seq<char>,
    binding: Seq<char>,
    r: Vec<String>,
)
    requires
        call_ensures(unsub_all_bindings, (bindings, ns, capid), r),
        bindings@.contains_key((actor, capid@, binding)),
    ensures
        texts(r@).contains(bound_subject_of(ns_view(ns), capid@, binding, actor)),
{
    let p = of_capid(capid@);
    let keys = bindings.keys();
    let kept = keys.filter(p);
    let k = (actor, capid@, binding);
    assert(keys.contains(k));
    let j = choose|j: int| 0 <= j < keys.len() && keys[j] == k;
    keys.lemma_filter_contains(p, j);
    let n = choose|n: int| 0 <= n < kept.len() && kept[n] == k;
    assert(texts(r@)[n] == private_subject(ns_view(ns), k));
}

/// A private subject that is listed is that of a binding to the capability.
pub proof fn no_other_private_subject_is_listed(
    bindings: &BindingsList,
    ns: Option<&str>,
    capid: &str,
    i: int,
    r: Vec<String>,
)
    requires
        call_ensures(unsub_all_bindings, (bindings, ns, capid), r),
        0 <= i < r@.len(),
    ensures
        exists|actor: Seq<char>, binding: Seq<char>| #[trigger]
            bindings@.contains_key((actor, capid@, binding)) && r@[i]@ == bound_subject_of(
                ns_view(ns),
                capid@,
                binding,
                actor,
            ),
{
    let p = of_capid(capid@);
    let keys = bindings.keys();
    let kept = keys.filter(p);
    assert(texts(r@).len() == kept.len());
    assert(texts(r@)[i] == r@[i]@);
    keys.lemma_filter_pred(p, i);
    assert(kept.contains(kept[i]));
    keys.lemma_filter_contains_rev(p, kept[i]);
    let k = kept[i];
    assert(bindings@.contains_key((k.0, capid@, k.2)));
}

/// While other instances of an actor run, its bindings stay and nobody is told anything.
pub proof fn running_actors_stay_bound(
    hostkey: &HostKey,
    ns: Option<&str>,
    bindings: &mut BindingsList,
    key: &str,
    instances: Option<usize>,
    r: Vec<(String, Invocation)>,
)
    requires
        call_ensures(deconfigure_actor, (hostkey, ns, bindings, key, instances), r),
        instances is Some && instances->0 > 0,
    ensures
        final(bindings)@ == old(bindings)@,
        r@.len() == 0,
{
}

/// Where no other instance of an actor is known to run, its bindings go, and only its. Of each of
/// them the provider is told, on its own subject, that the actor is gone.
pub proof fn providers_are_told_of_gone_actors(
    hostkey: &HostKey,
    ns: Option<&str>,
    bindings: &mut BindingsList,
    key: &str,
    instances: Option<usize>,
    capid: Seq<char>,
    binding: Seq<char>,
    r: Vec<(String, Invocation)>,
)
    requires
        call_ensures(deconfigure_actor, (hostkey, ns, bindings, key, instances), r),
        instances is None || instances->0 == 0,
        old(bindings).listed(),
    ensures
        forall|a: Seq<char>, c: Seq<char>, b: Seq<char>| #[trigger]
            final(bindings)@.contains_key((a, c, b)) <==> old(bindings)@.contains_key((a, c, b))
                && a != key@,
        old(bindings)@.contains_key((key@, capid, binding)) ==> exists|i: int|
            0 <= i < r@.len() && (#[trigger] r@[i]).0@ == provider_subject_of(
                ns_view(ns),
                capid,
                binding,
            ) && r@[i].1@.target == (EntityView::Capability { capid, binding }),
        forall|i: int|
            0 <= i < r@.len() ==> (#[trigger] r@[i]).1@.operation == "RemoveActor"@
                && r@[i].1@.origin == EntityView::Actor("system"@) && r@[i].1@.target is Capability
                && old(bindings)@.contains_key(
                (key@, r@[i].1@.target->capid, r@[i].1@.target->binding),
            ) && r@[i].0@ == provider_subject_of(
                ns_view(ns),
                r@[i].1@.target->capid,
                r@[i].1@.target->binding,
            ),
        key@.len() < 0x4000_0000 ==> forall|i: int|
            0 <= i < r@.len() ==> decoded_configuration((#[trigger] r@[i]).1@.msg) is Ok
                && decoded_configuration(r@[i].1@.msg)->Ok_0.module == key@,
{
    let p = of_actor(key@);
    let keys = old(bindings).keys();
    let gone = keys.filter(p);
    let k = (key@, capid, binding);
    if old(bindings)@.contains_key(k) {
        assert(keys.contains(k));
        let j = choose|j: int| 0 <= j < keys.len() && keys[j] == k;
        keys.lemma_filter_contains(p, j);
        let i = choose|i: int| 0 <= i < gone.len() && gone[i] == k;
        assert(r@[i].0@ == provider_subject_of(ns_view(ns), capid, binding));
    }
    assert forall|i: int| 0 <= i < r@.len() implies gone[i].0 == key@
        && old(bindings)@.contains_key(gone[i]) && (#[trigger] r@[i]).1@.target
        == (EntityView::Capability {
        capid: gone[i].1,
        binding: gone[i].2,
    }) by {
        keys.lemma_filter_pred(p, i);
        assert(gone.contains(gone[i]));
        keys.lemma_filter_contains_rev(p, gone[i]);
    }
    assert(crate::codec::short_map(Map::<Seq<char>, Seq<char>>::empty()));
}

/// What is kept of a list without repetition has none.
pub(crate) proof fn lemma_filter_distinct<T>(s: Seq<T>, p: spec_fn(T) -> bool)
    requires
        s.no_duplicates(),
    ensures
        s.filter(p).no_duplicates(),
    decreases s.len(),
{
    reveal(Seq::filter);
    if s.len() > 0 {
        let rest = s.drop_last();
        assert forall|i: int, j: int| 0 <= i < rest.len() && 0 <= j < rest.len() && i != j implies
            rest[i] != rest[j] by {
            assert(s[i] != s[j]);
        }
        lemma_filter_distinct(rest, p);
        let f = rest.filter(p);
        if p(s.last()) {
            assert forall|i: int| 0 <= i < f.len() implies f[i] != s.last() by {
                assert(f.contains(f[i]));
                rest.lemma_filter_contains_rev(p, f[i]);
                let j = choose|j: int| 0 <= j < rest.len() && rest[j] == f[i];
                assert(s[j] != s[s.len() - 1]);
            }
        }
    }
}

/// No binding is listed twice, none is taken out twice, and no provider is told twice of the same
/// binding.
pub proof fn bindings_are_told_of_once(
    bindings: &BindingsList,
    actor: &str,
    i: int,
    j: int,
    listed: Vec<BindingKey>,
    hostkey: &HostKey,
    ns: Option<&str>,
    going: &mut BindingsList,
    told: Vec<(String, Invocation)>,
)
    requires
        call_ensures(bindings_of_actor, (bindings, actor), listed),
        call_ensures(deconfigure_actor, (hostkey, ns, going, actor, None), told),
        old(going).listed(),
        i != j,
    ensures
        0 <= i < listed@.len() && 0 <= j < listed@.len() ==> listed@[i]@ != listed@[j]@,
        0 <= i < told@.len() && 0 <= j < told@.len() ==> told@[i].1@.target
            != told@[j].1@.target,
{
    let p = of_actor(actor@);
    lemma_filter_distinct(bindings.keys(), p);
    lemma_filter_distinct(old(going).keys(), p);
    assert(key_views(listed@).len() == listed@.len());
    if 0 <= i < listed@.len() && 0 <= j < listed@.len() {
        assert(key_views(listed@)[i] == listed@[i]@);
        assert(key_views(listed@)[j] == listed@[j]@);
    }
    if 0 <= i < told@.len() && 0 <= j < told@.len() {
        let gone = old(going).keys().filter(p);
        old(going).keys().lemma_filter_pred(p, i);
        old(going).keys().lemma_filter_pred(p, j);
        assert(told@[i].1@.target == (EntityView::Capability {
            capid: gone[i].1,
            binding: gone[i].2,
        }));
        assert(told@[j].1@.target == (EntityView::Capability {
            capid: gone[j].1,
            binding: gone[j].2,
        }));
    }
}

} // verus!
