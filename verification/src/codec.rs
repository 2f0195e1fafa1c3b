//! The messages that hosts, actors and capability providers exchange, and their
//! binary form.
use vstd::prelude::*;

use wascc_codec::capabilities as wire;

use crate::messagepack::readable;
use crate::table::Table;

verus! {

/// The originator of messages dispatched by the host runtime
pub const SYSTEM_ACTOR: &'static str = "system";

pub const OP_BIND_ACTOR: &'static str = "BindActor";

pub const OP_REMOVE_ACTOR: &'static str = "RemoveActor";

pub const OP_PERFORM_LIVE_UPDATE: &'static str = "PerformLiveUpdate";

pub const OP_GET_CAPABILITY_DESCRIPTOR: &'static str = "GetCapabilityDescriptor";

pub const OP_REQUEST_GUID: &'static str = "RequestGuid";

pub const OP_REQUEST_SEQUENCE: &'static str = "RequestSequence";

pub const OP_REQUEST_RANDOM: &'static str = "RequestRandom";

pub const CONFIG_WASCC_CLAIMS_ISSUER: &'static str = "__wascc_issuer";

pub const CONFIG_WASCC_CLAIMS_CAPABILITIES: &'static str = "__wascc_capabilities";

pub const CONFIG_WASCC_CLAIMS_NAME: &'static str = "__wascc_name";

pub const CONFIG_WASCC_CLAIMS_EXPIRES: &'static str = "__wascc_expires";

pub const CONFIG_WASCC_CLAIMS_TAGS: &'static str = "__wascc_tags";

/// The texts of a table of texts.
pub open spec fn text_map(m: Map<Seq<char>, String>) -> Map<Seq<char>, Seq<char>> {
    m.map_values(|s: String| s@)
}

/// Puts one more text into a table of texts.
pub(crate) fn put(t: &mut Table<String, String>, key: &str, value: String)
    ensures
        text_map(final(t)@) == text_map(old(t)@).insert(key@, value@),
{
    let ghost after = text_map(t@.insert(key@, value));
    assert(after =~= text_map(t@).insert(key@, value@));
    t.insert(key.to_string(), value);
}

/// What a list of pairs says as a map: of two pairs with the same key the later
/// one counts.
pub open spec fn pairs_map(p: Seq<(String, String)>) -> Map<Seq<char>, Seq<char>>
    decreases p.len(),
{
    if p.len() == 0 {
        Map::empty()
    } else {
        pairs_map(p.drop_last()).insert(p.last().0@, p.last().1@)
    }
}

/// The entries of a table, as pairs.
pub fn pairs_of(t: &Table<String, String>) -> (r: Vec<(String, String)>)
    ensures
        pairs_map(r@) == text_map(t@),
        r@.len() == t.keys().len(),
{
    let mut out: Vec<(String, String)> = Vec::new();
    let n: usize = t.len();
    let mut i: usize = 0;
    while i < n
        invariant
            i <= n,
            n == t.keys().len(),
            t.listed(),
            out@.len() == i,
            forall|k: Seq<char>| #[trigger]
                pairs_map(out@).contains_key(k) <==> t.keys().take(i as int).contains(k),
            forall|k: Seq<char>| #[trigger]
                pairs_map(out@).contains_key(k) ==> t@.contains_key(k) && pairs_map(out@)[k]
                    == t@[k]@,
        decreases n - i,
    {
        let ghost prev = out@;
        out.push((t.key_at(i).clone(), t.value_at(i).clone()));
        proof {
            assert(out@.drop_last() =~= prev);
            let key = t.keys()[i as int];
            let old_keys = t.keys().take(i as int);
            let new_keys = t.keys().take(i + 1);
            assert(new_keys =~= old_keys.push(key));
            assert forall|k: Seq<char>| #[trigger]
                pairs_map(out@).contains_key(k) <==> new_keys.contains(k) by {
                if new_keys.contains(k) {
                    let j = choose|j: int| 0 <= j < new_keys.len() && new_keys[j] == k;
                    if j < i {
                        assert(old_keys[j] == k);
                        assert(pairs_map(prev).contains_key(k));
                    }
                }
                if pairs_map(prev).contains_key(k) {
                    let j = choose|j: int| 0 <= j < old_keys.len() && old_keys[j] == k;
                    assert(new_keys[j] == k);
                }
                assert(new_keys[i as int] == key);
            }
            assert(out@.last().0@ == key && out@.last().1@ == t@[key]@);
            assert(pairs_map(out@) == pairs_map(prev).insert(key, t@[key]@));
            assert forall|k: Seq<char>| #[trigger]
                pairs_map(out@).contains_key(k) implies t@.contains_key(k) && pairs_map(out@)[k]
                == t@[k]@ by {
                if k != key {
                    assert(pairs_map(prev).contains_key(k));
                }
            }
        }
        i += 1;
    }
    proof {
        assert(t.keys().take(n as int) =~= t.keys());
        assert forall|k: Seq<char>| #[trigger]
            pairs_map(out@).contains_key(k) <==> text_map(t@).contains_key(k) by {
            assert(t@.dom().contains(k) <==> t.keys().contains(k));
        }
        assert(pairs_map(out@) =~= text_map(t@));
    }
    out
}

/// The table with the given pairs for its entries.
pub fn table_of(p: Vec<(String, String)>) -> (t: Table<String, String>)
    ensures
        text_map(t@) == pairs_map(p@),
{
    let mut t: Table<String, String> = Table::new();
    let mut i: usize = 0;
    assert(text_map(t@) =~= pairs_map(p@.take(0)));
    while i < p.len()
        invariant
            i <= p.len(),
            text_map(t@) == pairs_map(p@.take(i as int)),
        decreases p.len() - i,
    {
        let ghost prev = t@;
        t.insert(p[i].0.clone(), p[i].1.clone());
        proof {
            assert(p@.take(i + 1).drop_last() =~= p@.take(i as int));
            assert(text_map(t@) =~= text_map(prev).insert(p@[i as int].0@, p@[i as int].1@));
        }
        i += 1;
    }
    assert(p@.take(p@.len() as int) =~= p@);
    t
}

/// A second copy of a table of texts.
pub fn copy_table(t: &Table<String, String>) -> (r: Table<String, String>)
    ensures
        text_map(r@) == text_map(t@),
{
    table_of(pairs_of(t))
}

/// The configuration of an actor for a capability provider
pub struct CapabilityConfiguration {
    /// The public key of the actor
    pub module: String,
    /// Raw configuration values
    pub values: Table<String, String>,
}

#[verifier::ext_equal]
pub ghost struct ConfigurationView {
    pub module: Seq<char>,
    pub values: Map<Seq<char>, Seq<char>>,
}

impl View for CapabilityConfiguration {
    type V = ConfigurationView;

    open spec fn view(&self) -> ConfigurationView {
        ConfigurationView { module: self.module@, values: text_map(self.values@) }
    }
}

impl CapabilityConfiguration {
    /// A second copy of the configuration.
    pub fn copy(&self) -> (r: CapabilityConfiguration)
        ensures
            r@ == self@,
    {
        CapabilityConfiguration { module: self.module.clone(), values: copy_table(&self.values) }
    }
}

/// The direction of an operation
#[derive(Debug, Clone, Copy, PartialEq, Eq, Structural)]
pub enum OperationDirection {
    ToActor,
    ToProvider,
    Both,
}

/// A description of a single operation supported by a capability provider
#[derive(Debug)]
pub struct OperationDescriptor {
    pub name: String,
    pub direction: OperationDirection,
    pub doctext: String,
}

/// Metadata describing a capability provider and the operations it supports
#[derive(Debug)]
pub struct CapabilityDescriptor {
    /// The capability ID of the provider, e.g. `wascc:messaging`
    pub id: String,
    pub name: String,
    pub version: String,
    pub revision: u32,
    pub long_description: String,
    pub supported_operations: Vec<OperationDescriptor>,
}

#[verifier::ext_equal]
pub ghost struct OperationView {
    pub name: Seq<char>,
    pub direction: OperationDirection,
    pub doctext: Seq<char>,
}

#[verifier::ext_equal]
pub ghost struct DescriptorView {
    pub id: Seq<char>,
    pub name: Seq<char>,
    pub version: Seq<char>,
    pub revision: u32,
    pub long_description: Seq<char>,
    pub supported_operations: Seq<OperationView>,
}

impl View for OperationDescriptor {
    type V = OperationView;

    open spec fn view(&self) -> OperationView {
        OperationView { name: self.name@, direction: self.direction, doctext: self.doctext@ }
    }
}

impl View for CapabilityDescriptor {
    type V = DescriptorView;

    open spec fn view(&self) -> DescriptorView {
        DescriptorView {
            id: self.id@,
            name: self.name@,
            version: self.version@,
            revision: self.revision,
            long_description: self.long_description@,
            supported_operations: self.supported_operations@.map_values(
                |o: OperationDescriptor| o@,
            ),
        }
    }
}

impl OperationDescriptor {
    pub fn new(name: &str, direction: OperationDirection, doctext: &str) -> (r: OperationDescriptor)
        ensures
            r@ == (OperationView { name: name@, direction, doctext: doctext@ }),
    {
        OperationDescriptor { name: name.to_string(), direction, doctext: doctext.to_string() }
    }
}

impl CapabilityDescriptor {
    /// A second copy of the descriptor.
    pub fn copy(&self) -> (r: CapabilityDescriptor)
        ensures
            r@ == self@,
    {
        let mut ops: Vec<OperationDescriptor> = Vec::new();
        let mut i: usize = 0;
        while i < self.supported_operations.len()
            invariant
                i <= self.supported_operations.len(),
                ops.len() == i,
                forall|k: int| 0 <= k < i ==> (#[trigger] ops@[k])@ == self.supported_operations@[k]@,
            decreases self.supported_operations.len() - i,
        {
            let o = &self.supported_operations[i];
            ops.push(OperationDescriptor::new(o.name.as_str(), o.direction, o.doctext.as_str()));
            i += 1;
        }
        let r = CapabilityDescriptor {
            id: self.id.clone(),
            name: self.name.clone(),
            version: self.version.clone(),
            revision: self.revision,
            long_description: self.long_description.clone(),
            supported_operations: ops,
        };
        assert(r@.supported_operations =~= self@.supported_operations);
        r
    }
}

/// A request for a number or an identifier that actors cannot make themselves
#[derive(Debug, Clone, Copy)]
pub struct GeneratorRequest {
    pub guid: bool,
    pub sequence: bool,
    pub random: bool,
    /// Minimum value for a random number request
    pub min: u32,
    /// Maximum value for a random number request
    pub max: u32,
}

/// The result of a generation request
#[derive(Debug)]
pub struct GeneratorResult {
    pub guid: Option<String>,
    pub sequence_number: u64,
    pub random_number: u32,
}

pub ghost struct GeneratorResultView {
    pub guid: Option<Seq<char>>,
    pub sequence_number: u64,
    pub random_number: u32,
}

impl View for GeneratorResult {
    type V = GeneratorResultView;

    open spec fn view(&self) -> GeneratorResultView {
        GeneratorResultView {
            guid: match self.guid {
                Some(s) => Some(s@),
                None => None,
            },
            sequence_number: self.sequence_number,
            random_number: self.random_number,
        }
    }
}

/// What `wascc_codec::deserialize` makes of bytes as a configuration, or the text
/// of its error.
pub uninterp spec fn decoded_configuration(bytes: Seq<u8>) -> Result<ConfigurationView, Seq<char>>;

/// What `wascc_codec::deserialize` makes of bytes as a descriptor, or the text of
/// its error.
pub uninterp spec fn decoded_descriptor(bytes: Seq<u8>) -> Result<DescriptorView, Seq<char>>;

/// What `wascc_codec::serialize` makes of a descriptor.
pub uninterp spec fn encoded_descriptor(d: DescriptorView) -> Seq<u8>;

/// What `wascc_codec::deserialize` makes of bytes as a generator request, or the
/// text of its error.
pub uninterp spec fn decoded_request(bytes: Seq<u8>) -> Result<GeneratorRequest, Seq<char>>;

/// What `wascc_codec::serialize` makes of a generator result.
pub uninterp spec fn encoded_result(r: GeneratorResultView) -> Seq<u8>;

/// What `wascc_codec::serialize` makes of a health request with the given
/// placeholder.
pub uninterp spec fn encoded_health_request(placeholder: bool) -> Seq<u8>;

/// Bytes that can be read and stand for a configuration.
pub open spec fn is_configuration(bytes: Seq<u8>) -> bool {
    readable(bytes) && decoded_configuration(bytes) is Ok
}

/// A text whose length has a place in the binary form.
pub open spec fn short(s: Seq<char>) -> bool {
    s.len() < 0x4000_0000
}

/// Pairs that all have a place in the binary form.
pub open spec fn short_pairs(p: Seq<(String, String)>) -> bool {
    &&& p.len() < 0x1_0000_0000
    &&& forall|i: int| 0 <= i < p.len() ==> short((#[trigger] p[i]).0@) && short(p[i].1@)
}

/// A map of texts that all have a place in the binary form.
pub open spec fn short_map(m: Map<Seq<char>, Seq<char>>) -> bool {
    &&& m.dom().finite()
    &&& m.dom().len() < 0x1_0000_0000
    &&& forall|k: Seq<char>| #[trigger] m.contains_key(k) ==> short(k) && short(m[k])
}

/// `wascc_codec::serialize` of a `CapabilityConfiguration`. The order in which the
/// values are written is left open. The bytes can be read, and decoding them gives
/// the configuration back, as long as the lengths of the texts have a place in
/// the binary form.
#[verifier::external_body]
fn encode_pairs(module: &str, values: Vec<(String, String)>) -> (r: Vec<u8>)
    ensures
        short(module@) && short_pairs(values@) ==> readable(r@),
        short(module@) && short_pairs(values@) ==> decoded_configuration(r@) is Ok,
        short(module@) && short_pairs(values@) ==> decoded_configuration(r@)->Ok_0.module
            == module@,
        short(module@) && short_pairs(values@) ==> decoded_configuration(r@)->Ok_0.values
            == pairs_map(values@),
{
    wascc_codec::serialize(
        wascc_codec::core::CapabilityConfiguration {
            module: module.to_string(),
            values: values.into_iter().collect(),
        },
    ).unwrap()
}

/// `wascc_codec::deserialize` as a `CapabilityConfiguration`: the module, and the
/// values as pairs, in any order; or the text of the error. It calls itself for every
/// list or map inside another one, and makes room for all the data that an item claims
/// to hold: bytes with too much of either are left out.
#[verifier::external_body]
fn decode_pairs(bytes: &[u8]) -> (r: Result<(String, Vec<(String, String)>), String>)
    requires
        readable(bytes@),
    ensures
        r is Ok == decoded_configuration(bytes@) is Ok,
        r is Ok ==> r->Ok_0.0@ == decoded_configuration(bytes@)->Ok_0.module,
        r is Ok ==> pairs_map(r->Ok_0.1@) == decoded_configuration(bytes@)->Ok_0.values,
        r is Err ==> r->Err_0@ == decoded_configuration(bytes@)->Err_0,
{
    match wascc_codec::deserialize::<wascc_codec::core::CapabilityConfiguration>(bytes) {
        Ok(c) => Ok((c.module, c.values.into_iter().collect())),
        Err(e) => Err(e.to_string()),
    }
}

proof fn lemma_short_pairs(p: Seq<(String, String)>)
    requires
        short_map(pairs_map(p)),
        p.len() < 0x1_0000_0000,
        p.len() <= pairs_map(p).dom().len(),
    ensures
        short_pairs(p),
    decreases p.len(),
{
    lemma_pairs_len(p);
    assert forall|i: int| 0 <= i < p.len() implies short((#[trigger] p[i]).0@) && short(
        p[i].1@,
    ) by {
        lemma_pair_counts(p, i);
    }
}

proof fn lemma_pairs_len(p: Seq<(String, String)>)
    ensures
        pairs_map(p).dom().finite(),
        pairs_map(p).dom().len() <= p.len(),
    decreases p.len(),
{
    if p.len() > 0 {
        lemma_pairs_len(p.drop_last());
        let m = pairs_map(p.drop_last());
        assert(pairs_map(p).dom() =~= m.dom().insert(p.last().0@));
    }
}

/// Where no two pairs share a key, each pair stands in the map.
proof fn lemma_pair_counts(p: Seq<(String, String)>, i: int)
    requires
        0 <= i < p.len(),
        p.len() <= pairs_map(p).dom().len(),
    ensures
        pairs_map(p).contains_key(p[i].0@),
        pairs_map(p)[p[i].0@] == p[i].1@,
    decreases p.len(),
{
    let q = p.drop_last();
    let m = pairs_map(q);
    lemma_pairs_len(q);
    assert(pairs_map(p).dom() =~= m.dom().insert(p.last().0@));
    if i < p.len() - 1 {
        assert(!m.contains_key(p.last().0@)) by {
            if m.contains_key(p.last().0@) {
                assert(m.dom().insert(p.last().0@) =~= m.dom());
            }
        }
        lemma_pair_counts(q, i);
        assert(q[i] == p[i]);
    }
}

impl CapabilityConfiguration {
    /// The binary form of the configuration.
    pub fn encode(&self) -> (r: Vec<u8>)
        ensures
            short(self@.module) && short_map(self@.values) ==> readable(r@) && decoded_configuration(
                r@,
            ) is Ok && decoded_configuration(r@)->Ok_0 == self@,
    {
        let pairs = pairs_of(&self.values);
        let n: usize = self.values.len();
        proof {
            if short_map(self@.values) {
                let dom = self@.values.dom();
                assert(dom =~= self.values.keys().to_set()) by {
                    assert forall|k: Seq<char>| dom.contains(k) <==> self.values.keys().to_set().contains(
                        k,
                    ) by {
                        assert(self.values@.dom().contains(k) <==> self.values.keys().contains(k));
                    }
                }
                self.values.keys().unique_seq_to_set();
                lemma_short_pairs(pairs@);
            }
        }
        encode_pairs(self.module.as_str(), pairs)
    }

    /// The configuration that bytes stand for, or the text of what is wrong.
    pub fn decode(bytes: &[u8]) -> (r: Result<CapabilityConfiguration, String>)
        requires
            readable(bytes@),
        ensures
            r is Ok == decoded_configuration(bytes@) is Ok,
            r is Ok ==> r->Ok_0@ == decoded_configuration(bytes@)->Ok_0,
            r is Err ==> r->Err_0@ == decoded_configuration(bytes@)->Err_0,
    {
        match decode_pairs(bytes) {
            Ok((module, pairs)) => Ok(CapabilityConfiguration { module, values: table_of(pairs) }),
            Err(e) => Err(e),
        }
    }
}

/// A descriptor whose texts all have a place in the binary form.
pub open spec fn short_descriptor(d: DescriptorView) -> bool {
    &&& short(d.id)
    &&& short(d.name)
    &&& short(d.version)
    &&& short(d.long_description)
    &&& d.supported_operations.len() < 0x1_0000_0000
    &&& forall|i: int|
        0 <= i < d.supported_operations.len() ==> short((#[trigger] d.supported_operations[i]).name)
            && short(d.supported_operations[i].doctext)
}

/// `wascc_codec::serialize` of a `CapabilityDescriptor`. The bytes can be read,
/// and decoding them gives the descriptor back, as long as the lengths of the texts have
/// a place in the binary form.
#[verifier::external_body]
pub(crate) fn encode_descriptor(d: CapabilityDescriptor) -> (r: Vec<u8>)
    ensures
        r@ == encoded_descriptor(d@),
        short_descriptor(d@) ==> readable(r@),
        short_descriptor(d@) ==> decoded_descriptor(r@) is Ok && decoded_descriptor(r@)->Ok_0 == d@,
{
    let mut out = wire::CapabilityDescriptor::builder().id(&d.id).name(&d.name);
    out = out.version(&d.version).revision(d.revision).long_description(&d.long_description);
    for o in d.supported_operations {
        let direction = match o.direction {
            OperationDirection::ToActor => wire::OperationDirection::ToActor,
            OperationDirection::ToProvider => wire::OperationDirection::ToProvider,
            OperationDirection::Both => wire::OperationDirection::Both,
        };
        out = out.with_operation(&o.name, direction, &o.doctext);
    }
    wascc_codec::serialize(out.build()).unwrap()
}

/// `wascc_codec::deserialize` as a `CapabilityDescriptor`, or the text of the
/// error. It calls itself for every list or map inside another one, and makes room for
/// all the data that an item claims to hold: bytes with too much of either are left out.
#[verifier::external_body]
pub(crate) fn decode_descriptor(bytes: &[u8]) -> (r: Result<CapabilityDescriptor, String>)
    requires
        readable(bytes@),
    ensures
        r is Ok == decoded_descriptor(bytes@) is Ok,
        r is Ok ==> r->Ok_0@ == decoded_descriptor(bytes@)->Ok_0,
        r is Err ==> r->Err_0@ == decoded_descriptor(bytes@)->Err_0,
{
    let d: wire::CapabilityDescriptor = wascc_codec::deserialize(bytes).map_err(|e| e.to_string())?;
    let mut ops = Vec::new();
    for o in d.supported_operations {
        let direction = match o.direction {
            wire::OperationDirection::ToActor => OperationDirection::ToActor,
            wire::OperationDirection::ToProvider => OperationDirection::ToProvider,
            wire::OperationDirection::Both => OperationDirection::Both,
        };
        ops.push(OperationDescriptor { name: o.name, direction, doctext: o.doctext });
    }
    let (id, name, version, revision) = (d.id, d.name, d.version, d.revision);
    let long_description = d.long_description;
    Ok(CapabilityDescriptor { id, name, version, revision, long_description, supported_operations: ops })
}

/// `wascc_codec::deserialize` as a `GeneratorRequest`, or the text of the error. It
/// calls itself for every list or map inside another one, and makes room for all the data
/// that an item claims to hold: bytes with too much of either are left out.
#[verifier::external_body]
pub(crate) fn decode_request(bytes: &[u8]) -> (r: Result<GeneratorRequest, String>)
    requires
        readable(bytes@),
    ensures
        r is Ok == decoded_request(bytes@) is Ok,
        r is Ok ==> r->Ok_0 == decoded_request(bytes@)->Ok_0,
        r is Err ==> r->Err_0@ == decoded_request(bytes@)->Err_0,
{
    match wascc_codec::deserialize::<wascc_codec::extras::GeneratorRequest>(bytes) {
        Ok(q) => Ok(
            GeneratorRequest {
                guid: q.guid,
                sequence: q.sequence,
                random: q.random,
                min: q.min,
                max: q.max,
            },
        ),
        Err(e) => Err(e.to_string()),
    }
}

/// `wascc_codec::serialize` of a `GeneratorResult`.
#[verifier::external_body]
pub(crate) fn encode_result(g: GeneratorResult) -> (r: Vec<u8>)
    ensures
        r@ == encoded_result(g@),
{
    wascc_codec::serialize(
        wascc_codec::extras::GeneratorResult {
            guid: g.guid,
            sequence_number: g.sequence_number,
            random_number: g.random_number,
        },
    ).unwrap()
}

/// `wascc_codec::serialize` of a `HealthRequest`.
#[verifier::external_body]
pub(crate) fn encode_health_request(placeholder: bool) -> (r: Vec<u8>)
    ensures
        r@ == encoded_health_request(placeholder),
{
    wascc_codec::serialize(wascc_codec::core::HealthRequest { placeholder }).unwrap()
}

} // verus!
