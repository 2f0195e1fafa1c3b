//! The provider for extras.
use vstd::prelude::*;

use crate::capability::NativeCapability;
use crate::codec::{
    decoded_descriptor, decoded_request, encoded_result, GeneratorRequest, GeneratorResultView,
    OperationDirection,
};
use crate::errors::Error;
use crate::extras::{
    extras_capability, guid_message, guid_result, random_message, random_result,
    ExtrasCapabilityProvider,
};
use crate::messagepack::readable;
use crate::random::is_guid;

verus! {

/// Each number of the sequence is given out once: the one who asks gets the number that is due,
/// and the next one is due after it. The highest number is followed by zero.
pub proof fn sequence_numbers_are_due_in_turn(
    p: &mut ExtrasCapabilityProvider,
    later: &mut ExtrasCapabilityProvider,
    first: Vec<u8>,
    second: Vec<u8>,
)
    requires
        call_ensures(ExtrasCapabilityProvider::generate_sequence, (p,), first),
        call_ensures(ExtrasCapabilityProvider::generate_sequence, (later,), second),
        *old(later) == *final(p),
    ensures
        first@ == encoded_result(
            GeneratorResultView {
                guid: None,
                sequence_number: old(p).sequence,
                random_number: 0,
            },
        ),
        old(p).sequence < u64::MAX ==> final(p).sequence == old(p).sequence + 1,
        old(p).sequence == u64::MAX ==> final(p).sequence == 0,
        old(p).sequence < u64::MAX ==> second@ == encoded_result(
            GeneratorResultView {
                guid: None,
                sequence_number: (old(p).sequence + 1) as u64,
                random_number: 0,
            },
        ),
{
}

/// A GUID that is given out is one, with nothing else beside it. A random number lies in the
/// range that is asked for, and is zero where none is asked for.
pub proof fn drawn_values_are_given_out(
    p: &ExtrasCapabilityProvider,
    q: GeneratorRequest,
    guid: Vec<u8>,
    random: Vec<u8>,
)
    requires
        q.random ==> q.min < q.max,
        call_ensures(ExtrasCapabilityProvider::generate_guid, (p,), guid),
        call_ensures(ExtrasCapabilityProvider::generate_random, (p, q), random),
    ensures
        exists|g: Seq<char>| #[trigger]
            is_guid(g) && guid@ == encoded_result(
                GeneratorResultView { guid: Some(g), sequence_number: 0, random_number: 0 },
            ),
        exists|n: u32|
            (q.random ==> q.min <= n < q.max) && (!q.random ==> n == 0) && random@
                == #[trigger] encoded_result(
                GeneratorResultView { guid: None, sequence_number: 0, random_number: n },
            ),
{
    let g = choose|g: Seq<char>| is_guid(g) && guid@ == #[trigger] guid_message(g);
    assert(is_guid(g));
    let n = choose|n: u32|
        (if q.random {
            q.min <= n < q.max
        } else {
            n == 0
        }) && random@ == #[trigger] random_message(n);
    assert(random@ == encoded_result(
        GeneratorResultView { guid: None, sequence_number: 0, random_number: n },
    ));
}

/// A drawn value stands in its own place in the message.
pub proof fn drawn_values_have_their_place(guid: String, n: u32, g: Vec<u8>, r: Vec<u8>)
    requires
        call_ensures(guid_result, (guid,), g),
        call_ensures(random_result, (n,), r),
    ensures
        g@ == encoded_result(
            GeneratorResultView { guid: Some(guid@), sequence_number: 0, random_number: 0 },
        ),
        r@ == encoded_result(
            GeneratorResultView { guid: None, sequence_number: 0, random_number: n },
        ),
{
}

proof fn lemma_operations()
    ensures
        "GetCapabilityDescriptor"@.len() == 23,
        "RequestGuid"@.len() == 11,
        "RequestRandom"@.len() == 13,
        "RequestSequence"@.len() == 15,
{
    reveal_strlit("GetCapabilityDescriptor");
    reveal_strlit("RequestGuid");
    reveal_strlit("RequestRandom");
    reveal_strlit("RequestSequence");
}

/// Whoever asks for a sequence number gets the one that is due. No other request uses one up.
pub proof fn calls_use_up_sequence_numbers(
    p: &mut ExtrasCapabilityProvider,
    actor: &str,
    op: &str,
    msg: &[u8],
    r: Result<Vec<u8>, String>,
)
    requires
        call_ensures(ExtrasCapabilityProvider::handle_call, (p, actor, op, msg), r),
    ensures
        op@ == "RequestSequence"@ && decoded_request(msg@) is Ok ==> r is Ok && r->Ok_0@
            == encoded_result(
            GeneratorResultView {
                guid: None,
                sequence_number: old(p).sequence,
                random_number: 0,
            },
        ) && (old(p).sequence < u64::MAX ==> final(p).sequence == old(p).sequence + 1)
            && (old(p).sequence == u64::MAX ==> final(p).sequence == 0),
        op@ != "RequestSequence"@ || decoded_request(msg@) is Err ==> final(p).sequence
            == old(p).sequence,
{
    lemma_operations();
}

/// Each operation is answered with what it asks for: a GUID, a random number in the range of the
/// request, or, to the system alone, what the provider says of itself. A request that is none is
/// answered with what is wrong with it, and any other operation with an error.
pub proof fn calls_are_answered_by_operation(
    p: &mut ExtrasCapabilityProvider,
    actor: &str,
    op: &str,
    msg: &[u8],
    r: Result<Vec<u8>, String>,
)
    requires
        call_ensures(ExtrasCapabilityProvider::handle_call, (p, actor, op, msg), r),
    ensures
        op@ == "RequestGuid"@ && decoded_request(msg@) is Ok ==> r is Ok && exists|g: Seq<char>|
            #[trigger]
            is_guid(g) && r->Ok_0@ == encoded_result(
                GeneratorResultView { guid: Some(g), sequence_number: 0, random_number: 0 },
            ),
        op@ == "RequestRandom"@ && decoded_request(msg@) is Ok ==> r is Ok && exists|n: u32|
            (decoded_request(msg@)->Ok_0.random ==> decoded_request(msg@)->Ok_0.min <= n
                < decoded_request(msg@)->Ok_0.max) && (!decoded_request(msg@)->Ok_0.random ==> n
                == 0) && r->Ok_0@ == #[trigger] encoded_result(
                GeneratorResultView { guid: None, sequence_number: 0, random_number: n },
            ),
        (op@ == "RequestGuid"@ || op@ == "RequestRandom"@ || op@ == "RequestSequence"@)
            && decoded_request(msg@) is Err ==> r is Err && r->Err_0@ == decoded_request(
            msg@,
        )->Err_0,
        op@ == "GetCapabilityDescriptor"@ ==> (r is Ok <==> actor@ == "system"@),
        op@ != "RequestGuid"@ && op@ != "RequestRandom"@ && op@ != "RequestSequence"@ && !(op@
            == "GetCapabilityDescriptor"@ && actor@ == "system"@) ==> r is Err && r->Err_0@
            == "bad dispatch"@,
{
    lemma_operations();
    if op@ == "RequestGuid"@ && decoded_request(msg@) is Ok {
        let g = choose|g: Seq<char>|
            is_guid(g) && crate::extras::reply_view(r) == Ok::<Seq<u8>, Seq<char>>(
                #[trigger] guid_message(g),
            );
        assert(is_guid(g));
    }
    if op@ == "RequestRandom"@ && decoded_request(msg@) is Ok {
        let q = decoded_request(msg@)->Ok_0;
        let n = choose|n: u32|
            (if q.random {
                q.min <= n < q.max
            } else {
                n == 0
            }) && crate::extras::reply_view(r) == Ok::<Seq<u8>, Seq<char>>(
                #[trigger] random_message(n),
            );
        assert(r->Ok_0@ == encoded_result(
            GeneratorResultView { guid: None, sequence_number: 0, random_number: n },
        ));
    }
}

/// A call that may be anything is answered exactly where its request can be read and does not ask
/// for a number out of an empty range. Where it is not, no sequence number is used up.
pub proof fn unanswerable_calls_use_up_nothing(
    p: &mut ExtrasCapabilityProvider,
    actor: &str,
    op: &str,
    msg: &[u8],
    r: Option<Result<Vec<u8>, String>>,
)
    requires
        call_ensures(ExtrasCapabilityProvider::try_handle_call, (p, actor, op, msg), r),
    ensures
        r is None ==> final(p).sequence == old(p).sequence,
        readable(msg@) && op@ != "RequestRandom"@ ==> r is Some,
        op@ == "RequestRandom"@ && decoded_request(msg@) is Ok && decoded_request(
            msg@,
        )->Ok_0.random && decoded_request(msg@)->Ok_0.min >= decoded_request(msg@)->Ok_0.max
            ==> r is None,
        op@ == "RequestSequence"@ && readable(msg@) && decoded_request(msg@) is Ok ==> r->0 is Ok
            && r->0->Ok_0@ == encoded_result(
            GeneratorResultView {
                guid: None,
                sequence_number: old(p).sequence,
                random_number: 0,
            },
        ),
{
    lemma_operations();
}

/// The provider is part of every host under the default name, has given out no number yet, and
/// says of itself which operations it supports: each is one that it is sent.
pub proof fn extras_describe_themselves(
    r: Result<NativeCapability<ExtrasCapabilityProvider>, Error>,
    description: Vec<u8>,
)
    requires
        call_ensures(extras_capability, (), r),
        call_ensures(
            ExtrasCapabilityProvider::get_descriptor,
            (&r->Ok_0.plugin,),
            description,
        ),
    ensures
        r is Ok,
        r->Ok_0.plugin.sequence == 0,
        r->Ok_0.binding_name@ == "default"@,
        r->Ok_0.descriptor@.id == "wascc:extras"@,
        r->Ok_0.descriptor@.supported_operations.len() == 3,
        forall|i: int|
            0 <= i < 3 ==> (#[trigger] r->Ok_0.descriptor@.supported_operations[i]).direction
                == OperationDirection::ToProvider,
        r->Ok_0.descriptor@.supported_operations[0].name == "RequestGuid"@,
        r->Ok_0.descriptor@.supported_operations[1].name == "RequestRandom"@,
        r->Ok_0.descriptor@.supported_operations[2].name == "RequestSequence"@,
        readable(description@),
        decoded_descriptor(description@) is Ok,
        decoded_descriptor(description@)->Ok_0 == r->Ok_0.descriptor@,
{
}

/// What the provider says of itself in words.
pub proof fn extras_name_themselves(r: Result<NativeCapability<ExtrasCapabilityProvider>, Error>)
    requires
        call_ensures(extras_capability, (), r),
    ensures
        r is Ok,
        r->Ok_0.descriptor@.name == "waSCC Extras (Internal)"@,
        r->Ok_0.descriptor@.version == "0.14.0"@,
        r->Ok_0.descriptor@.revision == 2,
        r->Ok_0.descriptor@.long_description
            == "A capability provider exposing miscellaneous utility functions to actors"@,
        r->Ok_0.descriptor@.supported_operations[0].doctext
            == "Requests the generation of a new GUID"@,
        r->Ok_0.descriptor@.supported_operations[1].doctext
            == "Requests the generation of a randum number"@,
        r->Ok_0.descriptor@.supported_operations[2].doctext
            == "Requests the next number in a process-wide global sequence number"@,
{
}

/// A provider has given out no number to begin with.
pub proof fn extras_start_at_zero(r: ExtrasCapabilityProvider)
    requires
        call_ensures(ExtrasCapabilityProvider::new, (), r),
    ensures
        r.sequence == 0,
{
}

} // verus!
