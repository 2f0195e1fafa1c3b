//! The "wascc:extras" provider that is always part of the host runtime. This provides
//! functionality for generating random numbers, generating a guid, and generating a
//! sequence number... things that a standalone WASM module cannot do.
use vstd::prelude::*;

use crate::capability::NativeCapability;
use crate::codec::{
    decode_request, decoded_descriptor, decoded_request, encode_descriptor, encode_result,
    encoded_descriptor, encoded_result, CapabilityDescriptor, DescriptorView, GeneratorRequest,
    GeneratorResult, GeneratorResultView, OperationDescriptor, OperationDirection, OperationView,
    short_descriptor, OP_GET_CAPABILITY_DESCRIPTOR, OP_REQUEST_GUID, OP_REQUEST_RANDOM,
    OP_REQUEST_SEQUENCE, SYSTEM_ACTOR,
};
use crate::errors::Error;
use crate::messagepack::{is_readable, readable};
use crate::random::{is_guid, new_guid, number_between};
use crate::text::same;

verus! {

/// The capability ID of the provider
pub const CAPABILITY_ID: &'static str = "wascc:extras";

/// The version of the host runtime
pub const VERSION: &'static str = "0.14.0";

/// The revision of the host runtime
pub const REVISION: u32 = 2;

/// The provider, with the next number of the sequence that all actors share
pub struct ExtrasCapabilityProvider {
    pub sequence: u64,
}

/// The number that follows one in the sequence. The highest number is followed by zero.
pub open spec fn number_after(n: u64) -> u64 {
    if n == u64::MAX {
        0
    } else {
        (n + 1) as u64
    }
}

/// What the provider says of itself.
pub open spec fn extras_descriptor() -> DescriptorView {
    DescriptorView {
        id: CAPABILITY_ID@,
        name: "waSCC Extras (Internal)"@,
        version: VERSION@,
        revision: REVISION,
        long_description: "A capability provider exposing miscellaneous utility functions to actors"@,
        supported_operations: seq![
            OperationView {
                name: OP_REQUEST_GUID@,
                direction: OperationDirection::ToProvider,
                doctext: "Requests the generation of a new GUID"@,
            },
            OperationView {
                name: OP_REQUEST_RANDOM@,
                direction: OperationDirection::ToProvider,
                doctext: "Requests the generation of a randum number"@,
            },
            OperationView {
                name: OP_REQUEST_SEQUENCE@,
                direction: OperationDirection::ToProvider,
                doctext: "Requests the next number in a process-wide global sequence number"@,
            },
        ],
    }
}

proof fn lemma_short()
    ensures
        short_descriptor(extras_descriptor()),
{
    reveal_strlit("wascc:extras");
    reveal_strlit("waSCC Extras (Internal)");
    reveal_strlit("0.14.0");
    reveal_strlit("A capability provider exposing miscellaneous utility functions to actors");
    reveal_strlit("RequestGuid");
    reveal_strlit("RequestRandom");
    reveal_strlit("RequestSequence");
    reveal_strlit("Requests the generation of a new GUID");
    reveal_strlit("Requests the generation of a randum number");
    reveal_strlit("Requests the next number in a process-wide global sequence number");
}

/// The provider as it is bound in every host, under the default name.
pub fn extras_capability() -> (r: Result<NativeCapability<ExtrasCapabilityProvider>, Error>)
    ensures
        r is Ok,
        r->Ok_0.plugin.sequence == 0,
        r->Ok_0.binding_name@ == "default"@,
        r->Ok_0.descriptor@ == extras_descriptor(),
{
    let instance = ExtrasCapabilityProvider::new();
    let description = instance.get_descriptor();
    NativeCapability::from_instance(instance, None, description.as_slice())
}

/// The message that gives a caller a GUID.
pub open spec fn guid_message(guid: Seq<char>) -> Seq<u8> {
    encoded_result(
        GeneratorResultView { guid: Some(guid), sequence_number: 0, random_number: 0 },
    )
}

/// The message that gives a caller a random number.
pub open spec fn random_message(n: u32) -> Seq<u8> {
    encoded_result(GeneratorResultView { guid: None, sequence_number: 0, random_number: n })
}

/// The message that gives a caller a sequence number.
pub open spec fn sequence_message(n: u64) -> Seq<u8> {
    encoded_result(GeneratorResultView { guid: None, sequence_number: n, random_number: 0 })
}

/// The message that gives a caller a GUID.
pub fn guid_result(guid: String) -> (r: Vec<u8>)
    ensures
        r@ == guid_message(guid@),
{
    encode_result(GeneratorResult { guid: Some(guid), sequence_number: 0, random_number: 0 })
}

/// The message that gives a caller a random number.
pub fn random_result(n: u32) -> (r: Vec<u8>)
    ensures
        r@ == random_message(n),
{
    encode_result(GeneratorResult { guid: None, sequence_number: 0, random_number: n })
}

/// What a call of the provider leads to: the reply or the error, and the next number of
/// the sequence. The GUID and the random number are drawn anew each time.
pub open spec fn extras_reply(
    before: u64,
    actor: Seq<char>,
    op: Seq<char>,
    msg: Seq<u8>,
    reply: Result<Seq<u8>, Seq<char>>,
    after: u64,
) -> bool {
    if op == OP_GET_CAPABILITY_DESCRIPTOR@ && actor == SYSTEM_ACTOR@ {
        reply == Ok::<Seq<u8>, Seq<char>>(encoded_descriptor(extras_descriptor())) && after == before
    } else if op == OP_REQUEST_GUID@ || op == OP_REQUEST_RANDOM@ || op == OP_REQUEST_SEQUENCE@ {
        match decoded_request(msg) {
            Err(e) => reply == Err::<Seq<u8>, Seq<char>>(e) && after == before,
            Ok(q) => if op == OP_REQUEST_GUID@ {
                &&& after == before
                &&& exists|guid: Seq<char>|
                    is_guid(guid) && reply == Ok::<Seq<u8>, Seq<char>>(#[trigger] guid_message(guid))
            } else if op == OP_REQUEST_RANDOM@ {
                &&& after == before
                &&& exists|n: u32|
                    (if q.random {
                        q.min <= n < q.max
                    } else {
                        n == 0
                    }) && reply == Ok::<Seq<u8>, Seq<char>>(#[trigger] random_message(n))
            } else {
                &&& after == number_after(before)
                &&& reply == Ok::<Seq<u8>, Seq<char>>(sequence_message(before))
            },
        }
    } else {
        reply == Err::<Seq<u8>, Seq<char>>("bad dispatch"@) && after == before
    }
}

/// The view of a reply.
pub open spec fn reply_view(r: Result<Vec<u8>, String>) -> Result<Seq<u8>, Seq<char>> {
    match r {
        Ok(v) => Ok(v@),
        Err(e) => Err(e@),
    }
}

/// A call that asks for a random number out of an empty range.
pub open spec fn empty_range(op: Seq<char>, msg: Seq<u8>) -> bool {
    op == OP_REQUEST_RANDOM@ && (decoded_request(msg) matches Ok(q) && q.random && q.min >= q.max)
}

/// A call with a request that cannot be read.
pub open spec fn unreadable(op: Seq<char>, msg: Seq<u8>) -> bool {
    (op == OP_REQUEST_GUID@ || op == OP_REQUEST_RANDOM@ || op == OP_REQUEST_SEQUENCE@) && !readable(
        msg,
    )
}

impl ExtrasCapabilityProvider {
    /// A provider that has given out no sequence number yet.
    pub fn new() -> (r: ExtrasCapabilityProvider)
        ensures
            r.sequence == 0,
    {
        ExtrasCapabilityProvider { sequence: 0 }
    }

    /// A new GUID.
    pub fn generate_guid(&self) -> (r: Vec<u8>)
        ensures
            exists|guid: Seq<char>| is_guid(guid) && r@ == #[trigger] guid_message(guid),
    {
        let guid = new_guid();
        let ghost g = guid@;
        let r = guid_result(guid);
        assert(r@ == guid_message(g));
        r
    }

    /// A random number in the range that is asked for, or zero where none is.
    pub fn generate_random(&self, msg: GeneratorRequest) -> (r: Vec<u8>)
        requires
            msg.random ==> msg.min < msg.max,
        ensures
            exists|n: u32|
                (if msg.random {
                    msg.min <= n < msg.max
                } else {
                    n == 0
                }) && r@ == #[trigger] random_message(n),
    {
        let n: u32 = if msg.random {
            number_between(msg.min, msg.max)
        } else {
            0
        };
        let r = random_result(n);
        assert(r@ == random_message(n));
        r
    }

    /// The next number of the sequence.
    pub fn generate_sequence(&mut self) -> (r: Vec<u8>)
        ensures
            r@ == sequence_message(old(self).sequence),
            final(self).sequence == number_after(old(self).sequence),
    {
        let seq: u64 = self.sequence;
        self.sequence = if seq == u64::MAX {
            0
        } else {
            seq + 1
        };
        encode_result(GeneratorResult { guid: None, sequence_number: seq, random_number: 0 })
    }

    /// What the provider says of itself.
    pub fn get_descriptor(&self) -> (r: Vec<u8>)
        ensures
            r@ == encoded_descriptor(extras_descriptor()),
            readable(r@),
            decoded_descriptor(r@) == Ok::<DescriptorView, Seq<char>>(extras_descriptor()),
    {
        let mut ops: Vec<OperationDescriptor> = Vec::new();
        ops.push(
            OperationDescriptor::new(
                OP_REQUEST_GUID,
                OperationDirection::ToProvider,
                "Requests the generation of a new GUID",
            ),
        );
        ops.push(
            OperationDescriptor::new(
                OP_REQUEST_RANDOM,
                OperationDirection::ToProvider,
                "Requests the generation of a randum number",
            ),
        );
        ops.push(
            OperationDescriptor::new(
                OP_REQUEST_SEQUENCE,
                OperationDirection::ToProvider,
                "Requests the next number in a process-wide global sequence number",
            ),
        );
        let d = CapabilityDescriptor {
            id: CAPABILITY_ID.to_string(),
            name: "waSCC Extras (Internal)".to_string(),
            version: VERSION.to_string(),
            revision: REVISION,
            long_description: "A capability provider exposing miscellaneous utility functions to actors".to_string(),
            supported_operations: ops,
        };
        assert(d@.supported_operations =~= extras_descriptor().supported_operations);
        proof {
            lemma_short();
        }
        encode_descriptor(d)
    }

    /// Handles a call that may ask for a random number out of an empty range, or whose
    /// message may be one that cannot be read; to such a call there is no reply.
    pub fn try_handle_call(&mut self, actor: &str, op: &str, msg: &[u8]) -> (r: Option<
        Result<Vec<u8>, String>,
    >)
        ensures
            r is Some == (!unreadable(op@, msg@) && !empty_range(op@, msg@)),
            r is Some ==> extras_reply(
                old(self).sequence,
                actor@,
                op@,
                msg@,
                reply_view(r->0),
                final(self).sequence,
            ),
            r is None ==> final(self).sequence == old(self).sequence,
    {
        proof {
            reveal_strlit("GetCapabilityDescriptor");
            reveal_strlit("RequestRandom");
            reveal_strlit("RequestGuid");
            reveal_strlit("RequestSequence");
            assert(OP_GET_CAPABILITY_DESCRIPTOR@.len() != OP_REQUEST_RANDOM@.len());
            assert(OP_GET_CAPABILITY_DESCRIPTOR@.len() != OP_REQUEST_GUID@.len());
            assert(OP_GET_CAPABILITY_DESCRIPTOR@.len() != OP_REQUEST_SEQUENCE@.len());
        }
        if same(op, OP_GET_CAPABILITY_DESCRIPTOR) && same(actor, SYSTEM_ACTOR) {
            return Some(Ok(self.get_descriptor()));
        }
        if !same(op, OP_REQUEST_GUID) && !same(op, OP_REQUEST_RANDOM) && !same(
            op,
            OP_REQUEST_SEQUENCE,
        ) {
            return Some(Err("bad dispatch".to_string()));
        }
        if !is_readable(msg) {
            return None;
        }
        let request = match decode_request(msg) {
            Ok(q) => q,
            Err(e) => {
                return Some(Err(e));
            },
        };
        proof {
            assert(OP_REQUEST_GUID@.len() != OP_REQUEST_RANDOM@.len());
        }
        if same(op, OP_REQUEST_GUID) {
            Some(Ok(self.generate_guid()))
        } else if same(op, OP_REQUEST_RANDOM) {
            if request.random && request.min >= request.max {
                None
            } else {
                Some(Ok(self.generate_random(request)))
            }
        } else {
            Some(Ok(self.generate_sequence()))
        }
    }

    /// Handles a call.
    pub fn handle_call(&mut self, actor: &str, op: &str, msg: &[u8]) -> (r: Result<
        Vec<u8>,
        String,
    >)
        requires
            !unreadable(op@, msg@),
            !empty_range(op@, msg@),
        ensures
            extras_reply(
                old(self).sequence,
                actor@,
                op@,
                msg@,
                reply_view(r),
                final(self).sequence,
            ),
    {
        match self.try_handle_call(actor, op, msg) {
            Some(r) => r,
            None => Err("bad dispatch".to_string()),
        }
    }
}

/// The next number of the sequence when a number of them have been given out.
pub open spec fn number_after_requests(first: u64, requests: nat) -> u64
    decreases requests,
{
    if requests == 0 {
        first
    } else {
        number_after(number_after_requests(first, (requests - 1) as nat))
    }
}

/// The numbers of the sequence count up by one.
pub proof fn sequence_numbers_count_up(first: u64, requests: nat)
    requires
        first + requests <= u64::MAX,
    ensures
        number_after_requests(first, requests) == first + requests,
    decreases requests,
{
    if requests > 0 {
        sequence_numbers_count_up(first, (requests - 1) as nat);
    }
}

/// All actors are given numbers of the same sequence: whoever asks next is given the
/// number that follows.
pub proof fn actors_share_the_sequence(
    first: u64,
    actor: Seq<char>,
    msg: Seq<u8>,
    reply: Result<Seq<u8>, Seq<char>>,
    second: u64,
    next_actor: Seq<char>,
    next_msg: Seq<u8>,
    next_reply: Result<Seq<u8>, Seq<char>>,
    third: u64,
)
    requires
        decoded_request(msg) is Ok,
        decoded_request(next_msg) is Ok,
        extras_reply(first, actor, OP_REQUEST_SEQUENCE@, msg, reply, second),
        extras_reply(second, next_actor, OP_REQUEST_SEQUENCE@, next_msg, next_reply, third),
    ensures
        reply == Ok::<Seq<u8>, Seq<char>>(sequence_message(first)),
        next_reply == Ok::<Seq<u8>, Seq<char>>(sequence_message(number_after(first))),
        third == number_after_requests(first, 2),
{
    reveal_strlit("GetCapabilityDescriptor");
    reveal_strlit("RequestSequence");
    reveal_strlit("RequestRandom");
    reveal_strlit("RequestGuid");
    assert(OP_REQUEST_SEQUENCE@.len() != OP_GET_CAPABILITY_DESCRIPTOR@.len());
    assert(OP_REQUEST_SEQUENCE@.len() != OP_REQUEST_RANDOM@.len());
    assert(OP_REQUEST_SEQUENCE@.len() != OP_REQUEST_GUID@.len());
    reveal_with_fuel(number_after_requests, 3);
}

} // verus!
