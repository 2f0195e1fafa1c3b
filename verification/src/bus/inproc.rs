//! The message bus of a host that stands alone.
use vstd::prelude::*;

use crate::bus::{
    actor_subject, actor_subject_of, bound_subject_of, event_subject, inventory_wildcard_subject,
    provider_subject, provider_subject_bound_actor, provider_subject_of,
};
use crate::errors::{self, Error, ErrorKind, Failure};
use crate::table::Table;

verus! {

/// The subscribers to the subjects of a host that stands alone. A subscriber is
/// whatever an invocation can be handed to.
pub struct InprocBus<S> {
    pub subscriptions: Table<String, S>,
}

impl<S> InprocBus<S> {
    pub fn new() -> (r: Self)
        ensures
            r.subscriptions@ == Map::<Seq<char>, S>::empty(),
    {
        InprocBus { subscriptions: Table::new() }
    }

    /// Lets a subscriber take the invocations on a subject, in place of the one that
    /// may have done so.
    pub fn subscribe(&mut self, subject: &str, subscriber: S)
        ensures
            final(self).subscriptions@ == old(self).subscriptions@.insert(subject@, subscriber),
    {
        self.subscriptions.insert(subject.to_string(), subscriber);
    }

    /// The subscriber that an invocation on a subject goes to.
    pub fn invoke(&self, subject: &str) -> (r: Result<&S, Error>)
        ensures
            r is Ok == self.subscriptions@.contains_key(subject@),
            r is Ok ==> *(r->Ok_0) == self.subscriptions@[subject@],
            r is Err ==> r->Err_0@ == Failure::MiscHost(
                "Attempted bus call for "@ + subject@ + " with no subscribers"@,
            ),
    {
        match self.subscriptions.get(&subject.to_string()) {
            Some(s) => Ok(s),
            None => Err(
                errors::new(
                    ErrorKind::MiscHost(
                        "Attempted bus call for ".to_string().concat(subject).concat(
                            " with no subscribers",
                        ),
                    ),
                ),
            ),
        }
    }

    /// Ends the subscription to a subject, if there is one.
    pub fn unsubscribe(&mut self, subject: &str)
        ensures
            final(self).subscriptions@ == old(self).subscriptions@.remove(subject@),
    {
        let _ = self.subscriptions.remove(&subject.to_string());
    }

    pub fn actor_subject(&self, actor: &str) -> (r: String)
        ensures
            r@ == actor_subject_of(None, actor@),
    {
        actor_subject(None, actor)
    }

    pub fn provider_subject(&self, capid: &str, binding: &str) -> (r: String)
        ensures
            r@ == provider_subject_of(None, capid@, binding@),
    {
        provider_subject(None, capid, binding)
    }

    pub fn inventory_wildcard_subject(&self) -> (r: String)
        ensures
            r@ == "wasmbus"@ + ".inventory.*"@,
    {
        inventory_wildcard_subject(None)
    }

    pub fn event_subject(&self) -> (r: String)
        ensures
            r@ == "wasmbus"@ + ".events"@,
    {
        event_subject(None)
    }

    pub fn provider_subject_bound_actor(
        &self,
        capid: &str,
        binding: &str,
        calling_actor: &str,
    ) -> (r: String)
        ensures
            r@ == bound_subject_of(None, capid@, binding@, calling_actor@),
    {
        provider_subject_bound_actor(None, capid, binding, calling_actor)
    }
}

/// Once a subscription has ended, an invocation on its subject fails, and the other
/// subjects are served as before.
pub proof fn unsubscribing_is_exact<S>(m: Map<Seq<char>, S>, subject: Seq<char>, other: Seq<char>, s: S)
    ensures
        !m.insert(subject, s).remove(subject).contains_key(subject),
        other != subject ==> (m.insert(subject, s).remove(subject).contains_key(other)
            <==> m.contains_key(other)),
        other != subject && m.contains_key(other) ==> m.insert(subject, s).remove(subject)[other]
            == m[other],
{
}

} // verus!
