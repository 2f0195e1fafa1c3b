//! A table of values, each found by its key. No key occurs twice, and the
//! entries keep the order in which their keys first came in.
use vstd::prelude::*;

use crate::text::same;

verus! {

/// A type whose values can be the keys of a [`Table`].
pub trait TableKey: View + Sized {
    /// Whether two keys are the same.
    fn same_key(&self, other: &Self) -> (r: bool)
        ensures
            r == (self@ == other@),
    ;

    /// A second copy of a key.
    fn copy_key(&self) -> (r: Self)
        ensures
            r@ == self@,
    ;
}

impl TableKey for String {
    fn same_key(&self, other: &Self) -> (r: bool) {
        same(self.as_str(), other.as_str())
    }

    fn copy_key(&self) -> (r: Self) {
        self.clone()
    }
}

pub struct Table<K: TableKey, V> {
    entries: Vec<(K, V)>,
}

impl<K: TableKey, V> View for Table<K, V> {
    type V = Map<<K as View>::V, V>;

    closed spec fn view(&self) -> Map<<K as View>::V, V> {
        Map::new(
            |k: <K as View>::V| exists|i: int|
                0 <= i < self.entries@.len() && #[trigger] self.entries@[i].0@ == k,
            |k: <K as View>::V|
                self.entries@[choose|i: int|
                    0 <= i < self.entries@.len() && #[trigger] self.entries@[i].0@ == k].1,
        )
    }
}

impl<K: TableKey, V> Table<K, V> {
    /// The keys, in the order in which they first came in.
    pub closed spec fn keys(self) -> Seq<<K as View>::V> {
        self.entries@.map_values(|e: (K, V)| e.0@)
    }

    /// Each key of the table stands exactly once in the list of its keys.
    pub open spec fn listed(self) -> bool {
        &&& self.keys().no_duplicates()
        &&& forall|k: <K as View>::V| self@.dom().contains(k) <==> #[trigger] self.keys().contains(k)
    }

    #[verifier::type_invariant]
    spec fn distinct(self) -> bool {
        forall|i: int, j: int|
            0 <= i < j < self.entries@.len() ==> #[trigger] self.entries@[i].0@
                != #[trigger] self.entries@[j].0@
    }

    proof fn lemma_at(self, i: int)
        requires
            self.distinct(),
            0 <= i < self.entries@.len(),
        ensures
            self@.contains_key(self.entries@[i].0@),
            self@[self.entries@[i].0@] == self.entries@[i].1,
    {
        let k = self.entries@[i].0@;
        let j = choose|j: int| 0 <= j < self.entries@.len() && #[trigger] self.entries@[j].0@ == k;
        assert(0 <= i < self.entries@.len() && self.entries@[i].0@ == k);
        assert(i == j);
    }

    proof fn lemma_listed(self)
        requires
            self.distinct(),
        ensures
            self.listed(),
    {
        assert forall|k: <K as View>::V|
            self@.dom().contains(k) <==> #[trigger] self.keys().contains(k) by {
            if self@.dom().contains(k) {
                let i = choose|i: int|
                    0 <= i < self.entries@.len() && #[trigger] self.entries@[i].0@ == k;
                assert(self.keys()[i] == k);
            }
            if self.keys().contains(k) {
                let i = choose|i: int| 0 <= i < self.keys().len() && self.keys()[i] == k;
                assert(self.entries@[i].0@ == k);
            }
        }
        assert forall|i: int, j: int|
            0 <= i < self.keys().len() && 0 <= j < self.keys().len() && i
                != j implies self.keys()[i] != self.keys()[j] by {
            assert(self.keys()[i] == self.entries@[i].0@);
            assert(self.keys()[j] == self.entries@[j].0@);
            if i < j {
                assert(self.entries@[i].0@ != self.entries@[j].0@);
            } else {
                assert(self.entries@[j].0@ != self.entries@[i].0@);
            }
        }
    }

    /// An empty table.
    pub fn new() -> (r: Self)
        ensures
            r@ == Map::<<K as View>::V, V>::empty(),
            r.keys() == Seq::<<K as View>::V>::empty(),
    {
        let r = Table { entries: Vec::new() };
        assert(r@ =~= Map::<<K as View>::V, V>::empty());
        assert(r.keys() =~= Seq::<<K as View>::V>::empty());
        r
    }

    /// The number of entries.
    pub fn len(&self) -> (n: usize)
        ensures
            n == self.keys().len(),
            self.listed(),
    {
        proof {
            use_type_invariant(&*self);
            self.lemma_listed();
        }
        self.entries.len()
    }

    /// The key of the entry at the given position.
    pub fn key_at(&self, i: usize) -> (k: &K)
        requires
            i < self.keys().len(),
        ensures
            k@ == self.keys()[i as int],
            self@.contains_key(k@),
    {
        proof {
            use_type_invariant(&*self);
            self.lemma_at(i as int);
        }
        &self.entries[i].0
    }

    /// The value of the entry at the given position.
    pub fn value_at(&self, i: usize) -> (v: &V)
        requires
            i < self.keys().len(),
        ensures
            self@.contains_key(self.keys()[i as int]),
            *v == self@[self.keys()[i as int]],
    {
        proof {
            use_type_invariant(&*self);
            self.lemma_at(i as int);
        }
        &self.entries[i].1
    }

    fn position(&self, k: &K) -> (r: Option<usize>)
        ensures
            r is Some == self@.contains_key(k@),
            r is Some ==> r->0 < self.entries@.len() && self.entries@[r->0 as int].0@ == k@
                && self@[k@] == self.entries@[r->0 as int].1,
    {
        proof {
            use_type_invariant(&*self);
        }
        let mut i: usize = 0;
        while i < self.entries.len()
            invariant
                i <= self.entries@.len(),
                self.distinct(),
                forall|j: int| 0 <= j < i ==> #[trigger] self.entries@[j].0@ != k@,
            decreases self.entries@.len() - i,
        {
            if self.entries[i].0.same_key(k) {
                proof {
                    self.lemma_at(i as int);
                }
                return Some(i);
            }
            i += 1;
        }
        None
    }

    /// Whether there is an entry with the given key.
    pub fn contains_key(&self, k: &K) -> (r: bool)
        ensures
            r == self@.contains_key(k@),
    {
        self.position(k).is_some()
    }

    /// The value with the given key.
    pub fn get(&self, k: &K) -> (r: Option<&V>)
        ensures
            r is Some == self@.contains_key(k@),
            r is Some ==> *(r->0) == self@[k@],
    {
        match self.position(k) {
            Some(i) => Some(&self.entries[i].1),
            None => None,
        }
    }

    /// Gives a key a value, in place of the one that it may have had.
    pub fn insert(&mut self, k: K, v: V)
        ensures
            final(self)@ == old(self)@.insert(k@, v),
            final(self).keys() == (if old(self)@.contains_key(k@) {
                old(self).keys()
            } else {
                old(self).keys().push(k@)
            }),
    {
        let pos = self.position(&k);
        proof {
            use_type_invariant(&*self);
        }
        let ghost before = *self;
        let mut e: Vec<(K, V)> = Vec::new();
        std::mem::swap(&mut e, &mut self.entries);
        match pos {
            Some(i) => {
                e.set(i, (k, v));
            },
            None => {
                e.push((k, v));
                assert forall|i: int, j: int| 0 <= i < j < e@.len() implies #[trigger] e@[i].0@
                    != #[trigger] e@[j].0@ by {
                    if j == e@.len() - 1 {
                        assert(before.entries@[i].0@ != k@);
                    }
                }
            },
        }
        self.entries = e;
        proof {
            assert forall|q: <K as View>::V| #[trigger] self@.contains_key(q) <==> before@.insert(
                k@,
                v,
            ).contains_key(q) by {
                if self@.contains_key(q) {
                    let i = choose|i: int|
                        0 <= i < self.entries@.len() && #[trigger] self.entries@[i].0@ == q;
                    if q != k@ {
                        assert(before.entries@[i].0@ == q);
                    }
                }
                if before@.contains_key(q) {
                    let i = choose|i: int|
                        0 <= i < before.entries@.len() && #[trigger] before.entries@[i].0@ == q;
                    assert(self.entries@[i].0@ == q);
                }
                if q == k@ {
                    let i = if pos is Some { pos->0 as int } else { before.entries@.len() as int };
                    assert(self.entries@[i].0@ == q);
                }
            }
            assert forall|q: <K as View>::V| #[trigger] self@.contains_key(q) implies self@[q]
                == before@.insert(k@, v)[q] by {
                let i = choose|i: int|
                    0 <= i < self.entries@.len() && #[trigger] self.entries@[i].0@ == q;
                self.lemma_at(i);
                if q != k@ {
                    assert(before.entries@[i].0@ == q);
                    before.lemma_at(i);
                }
            }
            assert(self@ =~= before@.insert(k@, v));
            assert(self.keys() =~= if before@.contains_key(k@) {
                before.keys()
            } else {
                before.keys().push(k@)
            });
        }
    }

    /// Takes out the entry with the given key, and returns its value.
    pub fn remove(&mut self, k: &K) -> (r: Option<V>)
        ensures
            final(self)@ == old(self)@.remove(k@),
            r is Some == old(self)@.contains_key(k@),
            r is Some ==> r->0 == old(self)@[k@],
            final(self).keys() == old(self).keys().filter(|q: <K as View>::V| q != k@),
    {
        let pos = self.position(k);
        proof {
            use_type_invariant(&*self);
        }
        let ghost before = *self;
        match pos {
            None => {
                proof {
                    assert forall|i: int| 0 <= i < self.keys().len() implies #[trigger] self.keys()[i]
                        != k@ by {
                        self.lemma_at(i);
                    }
                    lemma_filter_all(self.keys(), |q: <K as View>::V| q != k@);
                    assert(self@ =~= before@.remove(k@));
                }
                None
            },
            Some(at) => {
                let mut e: Vec<(K, V)> = Vec::new();
                std::mem::swap(&mut e, &mut self.entries);
                let pair = e.remove(at);
                assert forall|i: int, j: int| 0 <= i < j < e@.len() implies #[trigger] e@[i].0@
                    != #[trigger] e@[j].0@ by {
                    let i2 = if i < at { i } else { i + 1 };
                    let j2 = if j < at { j } else { j + 1 };
                    assert(before.entries@[i2].0@ != before.entries@[j2].0@);
                }
                self.entries = e;
                proof {
                    assert forall|q: <K as View>::V| #[trigger] self@.contains_key(q) <==> before@.remove(
                        k@,
                    ).contains_key(q) by {
                        if self@.contains_key(q) {
                            let i = choose|i: int|
                                0 <= i < self.entries@.len() && #[trigger] self.entries@[i].0@ == q;
                            let i2 = if i < at { i } else { i + 1 };
                            assert(before.entries@[i2].0@ == q);
                            assert(before.entries@[at as int].0@ == k@);
                        }
                        if before@.contains_key(q) && q != k@ {
                            let i = choose|i: int|
                                0 <= i < before.entries@.len() && #[trigger] before.entries@[i].0@ == q;
                            let i2 = if i < at { i } else { i - 1 };
                            assert(self.entries@[i2].0@ == q);
                        }
                    }
                    assert forall|q: <K as View>::V| #[trigger] self@.contains_key(q) implies self@[q]
                        == before@.remove(k@)[q] by {
                        let i = choose|i: int|
                            0 <= i < self.entries@.len() && #[trigger] self.entries@[i].0@ == q;
                        self.lemma_at(i);
                        let i2 = if i < at { i } else { i + 1 };
                        assert(before.entries@[i2].0@ == q);
                        before.lemma_at(i2);
                    }
                    assert(self@ =~= before@.remove(k@));
                    before.lemma_listed();
                    assert(self.keys() =~= before.keys().remove(at as int));
                    assert(before.keys()[at as int] == k@);
                    lemma_filter_one(before.keys(), at as int);
                }
                Some(pair.1)
            },
        }
    }
}

/// A filter that lets everything through changes nothing.
pub proof fn lemma_filter_all<A>(s: Seq<A>, p: spec_fn(A) -> bool)
    requires
        forall|i: int| 0 <= i < s.len() ==> p(#[trigger] s[i]),
    ensures
        s.filter(p) == s,
    decreases s.len(),
{
    reveal(Seq::filter);
    if s.len() > 0 {
        lemma_filter_all(s.drop_last(), p);
        assert(s.drop_last().push(s.last()) =~= s);
    }
}

/// What one more item adds to a filtered beginning of a sequence.
pub proof fn lemma_filter_take<A>(s: Seq<A>, p: spec_fn(A) -> bool, i: int)
    requires
        0 <= i < s.len(),
    ensures
        s.take(i + 1).filter(p) == (if p(s[i]) {
            s.take(i).filter(p).push(s[i])
        } else {
            s.take(i).filter(p)
        }),
{
    reveal(Seq::filter);
    assert(s.take(i + 1).drop_last() =~= s.take(i));
    assert(s.take(i + 1).last() == s[i]);
}

proof fn lemma_filter_one<A>(s: Seq<A>, at: int)
    requires
        s.no_duplicates(),
        0 <= at < s.len(),
    ensures
        s.filter(|q: A| q != s[at]) == s.remove(at),
    decreases s.len(),
{
    reveal(Seq::filter);
    let p = |q: A| q != s[at];
    let t = s.drop_last();
    if at == s.len() - 1 {
        assert forall|i: int| 0 <= i < t.len() implies p(#[trigger] t[i]) by {
            assert(t[i] == s[i]);
        }
        lemma_filter_all(t, p);
        assert(s.remove(at) =~= t);
    } else {
        assert(t[at] == s[at]);
        lemma_filter_one(t, at);
        assert(p == (|q: A| q != t[at]));
        assert(s.remove(at) =~= t.remove(at).push(s.last()));
    }
}

} // verus!
