//! Calls from capability providers to actors.
use vstd::prelude::*;

use crate::bus::{actor_subject, actor_subject_of, ns_ref};
use crate::claims::{text_view, HostKey};
use crate::entity::{EntityView, WasccEntity};
use crate::errors::Error;
use crate::inthost::{copy_bytes, issued, Invocation, InvocationResponse};
use crate::messages::{reply_meaning, CallError, CallFailure};

verus! {

/// A dispatcher is given to each capability provider, allowing it to send
/// commands in to the guest module and await replies. This dispatch
/// is one way, and is _not_ used for the guest module to send commands to capabilities
pub struct WasccNativeDispatcher {
    pub capid: String,
    pub binding: String,
    pub ns: Option<String>,
    pub hk: HostKey,
}

impl WasccNativeDispatcher {
    pub fn new(hk: HostKey, ns: Option<String>, capid: &str, binding: &str) -> (r:
        WasccNativeDispatcher)
        ensures
            r.capid@ == capid@,
            r.binding@ == binding@,
            r.ns == ns,
            r.hk == hk,
    {
        WasccNativeDispatcher { capid: capid.to_string(), binding: binding.to_string(), ns, hk }
    }

    /// The first half of a call by a capability provider to invoke a function on an
    /// actor: the subject and the invocation.
    pub fn dispatch(&self, actor: &str, op: &str, msg: &[u8]) -> (r: (String, Invocation))
        ensures
            r.0@ == actor_subject_of(text_view(self.ns), actor@),
            r.1@.origin == (EntityView::Capability { capid: self.capid@, binding: self.binding@ }),
            r.1@.target == EntityView::Actor(actor@),
            r.1@.operation == op@,
            r.1@.msg == msg@,
            issued(r.1@, self.hk.spec_public()),
    {
        let inv = Invocation::new(
            &self.hk,
            WasccEntity::Capability { capid: self.capid.clone(), binding: self.binding.clone() },
            WasccEntity::Actor(actor.to_string()),
            op,
            copy_bytes(msg),
        );
        (actor_subject(ns_ref(&self.ns), actor), inv)
    }
}

/// The second half of a call by a capability provider: what it gets of the reply.
pub fn finish_dispatch(reply: Result<InvocationResponse, Error>) -> (r: Result<Vec<u8>, CallError>)
    ensures
        reply is Ok && reply_meaning(reply->Ok_0@) is Ok ==> r is Ok && r->Ok_0@ == reply_meaning(
            reply->Ok_0@,
        )->Ok_0,
        reply is Ok && reply_meaning(reply->Ok_0@) is Err ==> r is Err && r->Err_0@
            == CallFailure::Text(reply_meaning(reply->Ok_0@)->Err_0),
        reply is Err ==> r is Err && r->Err_0@ == CallFailure::Host(reply->Err_0@),
{
    match reply {
        Ok(inv_r) => match inv_r.error {
            Some(e) => Err(
                CallError::Text("Invocation failure: ".to_string().concat(e.as_str())),
            ),
            None => Ok(inv_r.msg),
        },
        Err(e) => Err(CallError::Host(e)),
    }
}

} // verus!
