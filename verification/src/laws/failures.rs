//! Errors, and what is told of them.
use vstd::prelude::*;

use crate::errors::{self, Error, ErrorKind, Failure};
use crate::messages::{CallError, CallFailure};

verus! {

/// The text of an error begins with what kind it is, and ends with what it carries.
pub proof fn errors_tell_their_kind(e: &Error, r: String)
    requires
        call_ensures(Error::to_string, (e,), r),
    ensures
        e@ is Wapc ==> r@ == "waPC failure: "@ + e@->Wapc_0,
        e@ is HostCallFailure ==> r@ == "Error occurred during host call: "@
            + e@->HostCallFailure_0,
        e@ is Authorization ==> r@ == "WebAssembly module authorization failure: "@
            + e@->Authorization_0,
        e@ is CapabilityProvider ==> r@ == "Capability provider error: "@
            + e@->CapabilityProvider_0,
        e@ is MiscHost ==> r@ == "waSCC Host Error: "@ + e@->MiscHost_0,
        e@ is Plugin ==> r@ == "Plugin error: "@ + e@->Plugin_0,
        e@ is Middleware ==> r@ == "Middleware error: "@ + e@->Middleware_0,
        e@ is Serialization ==> r@ == "Serialization error: "@ + e@->Serialization_0,
        e@ is Wascap ==> r@.len() >= "Embedded JWT failure: "@.len() && r@.subrange(
            0,
            "Embedded JWT failure: "@.len() as int,
        ) == "Embedded JWT failure: "@,
        e@ is IO ==> r@.len() >= "I/O error: "@.len() && r@.subrange(
            0,
            "I/O error: "@.len() as int,
        ) == "I/O error: "@,
{
}

/// An error has the kind that it was made of, and only one that came from another library has a
/// cause. Its description says of which kind it is.
pub proof fn errors_keep_their_kind(
    kind: ErrorKind,
    e: Error,
    k: &ErrorKind,
    into: ErrorKind,
    d: &str,
    cause: Option<String>,
)
    requires
        call_ensures(errors::new, (kind,), e),
        call_ensures(Error::kind, (&e,), k),
        call_ensures(Error::into_kind, (e,), into),
        call_ensures(Error::description, (&e,), d),
        call_ensures(Error::cause, (&e,), cause),
    ensures
        *k == kind,
        into == kind,
        cause is Some <==> kind is Wapc || kind is Wascap || kind is IO || kind is Plugin,
        kind is Wapc ==> cause->0@ == kind->Wapc_0@ && d@ == "waPC error"@,
        kind is Plugin ==> cause->0@ == kind->Plugin_0@ && d@ == "Plugin error"@,
        kind is IO ==> d@ == "I/O error"@,
        kind is HostCallFailure ==> d@ == "Error occurred during host call"@,
        kind is Wascap ==> d@ == "Embedded JWT Failure"@,
        kind is Authorization ==> d@ == "Module authorization failure"@,
        kind is CapabilityProvider ==> d@ == "Capability provider failure"@,
        kind is MiscHost ==> d@ == "waSCC Host error"@,
        kind is Middleware ==> d@ == "Middleware error"@,
        kind is Serialization ==> d@ == "Serialization error"@,
{
}

/// The text of a failed call is the text itself where it is known by that alone, and else the
/// text of the error.
pub proof fn failed_calls_are_told(e: &CallError, r: String)
    requires
        call_ensures(CallError::to_string, (e,), r),
    ensures
        e@ is Text ==> r@ == e@->Text_0,
        e@ matches CallFailure::Host(Failure::HostCallFailure(s)) ==> r@
            == "Error occurred during host call: "@ + s,
        e@ matches CallFailure::Host(Failure::MiscHost(s)) ==> r@ == "waSCC Host Error: "@ + s,
        e@ matches CallFailure::Host(Failure::Authorization(s)) ==> r@
            == "WebAssembly module authorization failure: "@ + s,
{
}

} // verus!
