//! The routes by which invocations reach actors and capability providers.
use vstd::prelude::*;

use crate::bindings::RouteKey;
use crate::entity::{quote, quoted, EntityView, WasccEntity};
use crate::errors::{self, Error, ErrorKind, Failure};
use crate::table::{lemma_filter_take, Table};
use crate::text::same;

verus! {

/// The binding name under which the routes of actors stand
pub const ACTOR_BINDING: &'static str = "_actor_";

/// The routes by which targets are reached. What stands at the end of a route is
/// up to whoever sends on it.
pub struct Router<E> {
    pub routes: Table<RouteKey, E>,
}

/// How a routing key is shown in messages.
pub open spec fn shown_key(k: (Seq<char>, Seq<char>)) -> Seq<char> {
    "("@ + quoted(k.0) + ", "@ + quoted(k.1) + ")"@
}

/// How a routing key is shown in messages.
pub fn show_key(k: &RouteKey) -> (r: String)
    ensures
        r@ == shown_key(k@),
{
    "(".to_string().concat(quote(k.binding_name.as_str()).as_str()).concat(", ").concat(
        quote(k.capid.as_str()).as_str(),
    ).concat(")")
}

/// The routing key of a binding name and an identifier.
pub fn route_key(binding: &str, id: &str) -> (r: RouteKey)
    ensures
        r@ == (binding@, id@),
{
    RouteKey::new(binding, id)
}

/// The capability that a routing key stands for.
pub open spec fn captarget(k: (Seq<char>, Seq<char>)) -> EntityView {
    EntityView::Capability { capid: k.1, binding: k.0 }
}

/// The capability that a routing key stands for.
pub fn captarget_for_key(key: &RouteKey) -> (r: WasccEntity)
    ensures
        r@ == captarget(key@),
{
    WasccEntity::Capability { binding: key.binding_name.clone(), capid: key.capid.clone() }
}

/// The routing keys that are not those of actors.
pub open spec fn not_actor() -> spec_fn((Seq<char>, Seq<char>)) -> bool {
    |k: (Seq<char>, Seq<char>)| k.0 != ACTOR_BINDING@
}

impl<E> Router<E> {
    /// A router without routes.
    pub fn new() -> (r: Router<E>)
        ensures
            r.routes@ == Map::<(Seq<char>, Seq<char>), E>::empty(),
    {
        Router { routes: Table::new() }
    }

    pub fn add_route(&mut self, binding: &str, id: &str, entry: E)
        ensures
            final(self).routes@ == old(self).routes@.insert((binding@, id@), entry),
    {
        self.routes.insert(route_key(binding, id), entry);
    }

    pub fn get_route(&self, binding: &str, id: &str) -> (r: Option<&E>)
        ensures
            r is Some == self.routes@.contains_key((binding@, id@)),
            r is Some ==> *(r->0) == self.routes@[(binding@, id@)],
    {
        self.routes.get(&route_key(binding, id))
    }

    pub fn remove_route(&mut self, binding: &str, id: &str)
        ensures
            final(self).routes@ == old(self).routes@.remove((binding@, id@)),
    {
        let _ = self.routes.remove(&route_key(binding, id));
    }

    pub fn route_exists(&self, binding: &str, id: &str) -> (r: bool)
        ensures
            r == self.routes@.contains_key((binding@, id@)),
    {
        self.routes.contains_key(&route_key(binding, id))
    }

    /// Takes out a route, and returns what stood at its end, to be told to stop.
    pub fn terminate_route(&mut self, binding: &str, id: &str) -> (r: Result<E, Error>)
        ensures
            final(self).routes@ == old(self).routes@.remove((binding@, id@)),
            r is Ok == old(self).routes@.contains_key((binding@, id@)),
            r is Ok ==> r->Ok_0 == old(self).routes@[(binding@, id@)],
            r is Err ==> r->Err_0@ == Failure::MiscHost(
                "Failed to remove route - does not exist: "@ + shown_key((binding@, id@)),
            ),
    {
        let key = route_key(binding, id);
        match self.routes.remove(&key) {
            Some(entry) => Ok(entry),
            None => Err(
                errors::new(
                    ErrorKind::MiscHost(
                        "Failed to remove route - does not exist: ".to_string().concat(
                            show_key(&key).as_str(),
                        ),
                    ),
                ),
            ),
        }
    }

    /// All routes that aren't actors: what each leads to, and what stands at its end.
    pub fn all_capabilities(&self) -> (r: Vec<(WasccEntity, &E)>)
        ensures
            self.routes.listed(),
            ({
                let keys = self.routes.keys().filter(not_actor());
                &&& r@.len() == keys.len()
                &&& forall|i: int|
                    0 <= i < r@.len() ==> (#[trigger] r@[i]).0@ == captarget(keys[i]) && *(r@[i].1)
                        == self.routes@[keys[i]]
            }),
    {
        let mut out: Vec<(WasccEntity, &E)> = Vec::new();
        let n: usize = self.routes.len();
        let mut i: usize = 0;
        proof {
            reveal(Seq::filter);
            assert(self.routes.keys().take(0).filter(not_actor()) =~= Seq::empty());
        }
        while i < n
            invariant
                i <= n,
                n == self.routes.keys().len(),
                out@.len() == self.routes.keys().take(i as int).filter(not_actor()).len(),
                forall|j: int|
                    0 <= j < out@.len() ==> (#[trigger] out@[j]).0@ == captarget(
                        self.routes.keys().take(i as int).filter(not_actor())[j],
                    ) && *(out@[j].1) == self.routes@[self.routes.keys().take(i as int).filter(
                        not_actor(),
                    )[j]],
            decreases n - i,
        {
            let k = self.routes.key_at(i);
            proof {
                lemma_filter_take(self.routes.keys(), not_actor(), i as int);
            }
            if !same(k.binding_name.as_str(), ACTOR_BINDING) {
                out.push((captarget_for_key(k), self.routes.value_at(i)));
            }
            i += 1;
        }
        assert(self.routes.keys().take(n as int) =~= self.routes.keys());
        out
    }
}

} // verus!
