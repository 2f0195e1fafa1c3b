//! The forms in which manifests and messages are written.
use vstd::prelude::*;

use crate::codec::CapabilityConfiguration;
use crate::manifest::{
    expanded, plain_texts_stay, references_are_replaced, references_with_defaults_are_replaced,
    HostManifest, ManifestFormat,
};
use crate::messagepack::{
    begun, behind_item, ended, is_readable, item_size, items_inside, scanned, MAX_NESTING,
};

verus! {

/// A manifest without an extension is read as YAML.
pub proof fn manifests_without_extension(r: ManifestFormat)
    requires
        call_ensures(HostManifest::format, (None,), r),
    ensures
        r == ManifestFormat::Yaml,
{
}

/// A manifest is read as YAML where its extension is `yaml` or `yml`, in whatever case, and as
/// JSON where it is anything else.
pub proof fn manifests_are_read_by_extension(
    extension: &str,
    upper: &str,
    r: ManifestFormat,
    q: ManifestFormat,
)
    requires
        call_ensures(HostManifest::format, (Some(extension),), r),
        call_ensures(HostManifest::format, (Some(upper),), q),
        forall|i: int| 0 <= i < extension@.len() ==> 'a' <= (#[trigger] extension@[i]) <= 'z',
        upper@.len() == extension@.len(),
        forall|i: int|
            0 <= i < upper@.len() ==> (#[trigger] upper@[i]) == extension@[i] || upper@[i] as u32
                + 32 == extension@[i] as u32,
    ensures
        r == ManifestFormat::Yaml <==> extension@ == "yaml"@ || extension@ == "yml"@,
        q == r,
{
    let e = extension@;
    let u = upper@;
    assert(crate::text::ascii(e)) by {
        assert forall|i: int| 0 <= i < e.len() implies (#[trigger] e[i] as u32) < 128 by {
            assert('a' <= e[i] <= 'z');
        }
    }
    assert forall|i: int| 0 <= i < e.len() implies crate::text::ascii_lower(e[i]) == e[i] by {
        assert('a' <= e[i] <= 'z');
    }
    assert(crate::text::lowercase(e) =~= e);
    assert forall|i: int| 0 <= i < u.len() implies (#[trigger] u[i] as u32) < 128
        && crate::text::ascii_lower(u[i]) == e[i] by {
        assert('a' <= e[i] <= 'z');
        assert(u[i] == e[i] || u[i] as u32 + 32 == e[i] as u32);
    }
    assert(crate::text::ascii(u));
    assert(crate::text::lowercase(u) =~= e);
}

/// A manifest that refers to no variables stays as it is. Where it refers to one, by its name or
/// with a default value, the text around it stays, and in its place stands its value, or else the
/// default value, or else the reference itself.
pub proof fn manifests_are_expanded(
    head: Seq<char>,
    name: Seq<char>,
    default: Seq<char>,
    tail: Seq<char>,
    plain: &str,
    named: &str,
    defaulted: &str,
    p: String,
    n: String,
    d: String,
)
    requires
        !head.contains('$') && !tail.contains('$') && !plain@.contains('$'),
        forall|i: int|
            0 <= i < name.len() ==> ('A' <= (#[trigger] name[i]) <= 'Z') || ('a' <= name[i] <= 'z')
                || ('0' <= name[i] <= '9') || name[i] == '_',
        forall|i: int|
            0 <= i < default.len() ==> (#[trigger] default[i]) != '}' && default[i] != '\n'
                && default[i] != '\t' && default[i] != '\r',
        named@ == head + "${"@ + name + "}"@ + tail,
        defaulted@ == head + "${"@ + name + ":"@ + default + "}"@ + tail,
        call_ensures(HostManifest::expand_env, (plain,), p),
        call_ensures(HostManifest::expand_env, (named,), n),
        call_ensures(HostManifest::expand_env, (defaulted,), d),
    ensures
        p@ == plain@,
        exists|value: Seq<char>| n@ == #[trigger] (head + value + tail),
        exists|value: Seq<char>| d@ == #[trigger] (head + value + tail),
{
    let e1 = choose|env: Map<Seq<char>, Seq<char>>| n@ == #[trigger] expanded(named@, env);
    let e2 = choose|env: Map<Seq<char>, Seq<char>>| d@ == #[trigger] expanded(defaulted@, env);
    assert forall|i: int| 0 <= i < name.len() implies crate::manifest::name_char(
        #[trigger] name[i],
    ) by {}
    references_are_replaced(head, name, tail, e1);
    references_with_defaults_are_replaced(head, name, default, tail, e2);
    plain_texts_stay(tail, e1);
    plain_texts_stay(tail, e2);
    let v1 = if e1.contains_key(name) {
        e1[name]
    } else {
        "${"@ + name + "}"@
    };
    let v2 = if e2.contains_key(name) {
        e2[name]
    } else {
        default
    };
    assert(n@ == head + v1 + tail);
    assert(d@ == head + v2 + tail);
}

/// A configuration reads back from its binary form, as long as its texts have a place in it.
pub proof fn configurations_are_coded(
    c: &CapabilityConfiguration,
    bytes: Vec<u8>,
    b: &[u8],
    r: Result<CapabilityConfiguration, String>,
)
    requires
        c@.module.len() < 0x4000_0000,
        c@.values.dom().finite(),
        c@.values.dom().len() < 0x1_0000_0000,
        forall|k: Seq<char>| #[trigger]
            c@.values.contains_key(k) ==> k.len() < 0x4000_0000 && c@.values[k].len() < 0x4000_0000,
        call_ensures(CapabilityConfiguration::encode, (c,), bytes),
        b@ == bytes@,
        call_ensures(CapabilityConfiguration::decode, (b,), r),
    ensures
        r is Ok,
        r->Ok_0@.module == c@.module,
        r->Ok_0@.values == c@.values,
{
    assert(crate::codec::short(c@.module) && crate::codec::short_map(c@.values));
}

/// A message of small numbers alone can be read, however many they are.
pub proof fn flat_messages_can_be_read(bytes: &[u8], r: bool)
    requires
        call_ensures(is_readable, (bytes,), r),
        forall|i: int| 0 <= i < bytes@.len() ==> (#[trigger] bytes@[i]) < 0x80,
    ensures
        r,
{
    lemma_flat(bytes@);
}

proof fn lemma_flat(bytes: Seq<u8>)
    requires
        forall|i: int| 0 <= i < bytes.len() ==> (#[trigger] bytes[i]) < 0x80,
    ensures
        scanned(bytes, Seq::empty(), MAX_NESTING as nat),
    decreases bytes.len(),
{
    if bytes.len() > 0 {
        let rest = behind_item(bytes);
        assert(bytes[0] < 0x80);
        assert(rest =~= bytes.skip(1));
        assert forall|i: int| 0 <= i < rest.len() implies (#[trigger] rest[i]) < 0x80 by {
            assert(rest[i] == bytes[i + 1]);
        }
        lemma_flat(rest);
    }
}

/// A message that is nothing but a list in a list, and so on, can be read exactly where there are
/// no more than 1024 of them.
pub proof fn nesting_is_limited(bytes: &[u8], r: bool)
    requires
        call_ensures(is_readable, (bytes,), r),
        forall|i: int| 0 <= i < bytes@.len() ==> (#[trigger] bytes@[i]) == 0x91,
    ensures
        r <==> bytes@.len() <= 1024,
{
    lemma_nested(bytes@, Seq::empty(), 1024);
}

proof fn lemma_nested(bytes: Seq<u8>, open: Seq<nat>, limit: nat)
    requires
        forall|i: int| 0 <= i < bytes.len() ==> (#[trigger] bytes[i]) == 0x91,
        open.len() <= limit,
        open.len() > 0 ==> open.last() == 1,
    ensures
        scanned(bytes, open, limit) <==> bytes.len() + open.len() <= limit,
    decreases bytes.len(),
{
    if bytes.len() > 0 {
        let rest = behind_item(bytes);
        assert(bytes[0] == 0x91);
        assert(item_size(bytes) == 1);
        assert(items_inside(bytes) == 1);
        assert(rest =~= bytes.skip(1));
        assert forall|i: int| 0 <= i < rest.len() implies (#[trigger] rest[i]) == 0x91 by {
            assert(rest[i] == bytes[i + 1]);
        }
        if open.len() < limit {
            lemma_nested(rest, begun(open).push(1), limit);
        }
    }
}

/// A message of up to 1024 bytes can be read, unless an item in it gives the length of its data in
/// four bytes: its lists and maps cannot be nested too deep.
pub proof fn short_messages_can_be_read(bytes: &[u8], r: bool)
    requires
        call_ensures(is_readable, (bytes,), r),
        bytes@.len() <= 1024,
        forall|i: int|
            0 <= i < bytes@.len() ==> (#[trigger] bytes@[i]) != 0xc6 && bytes@[i] != 0xdb
                && bytes@[i] != 0xc9,
    ensures
        r,
{
    lemma_short_message(bytes@, Seq::empty(), 1024);
}

proof fn lemma_ended_shrinks(open: Seq<nat>)
    ensures
        ended(open).len() <= open.len(),
    decreases open.len(),
{
    if open.len() > 0 && open.last() == 0 {
        lemma_ended_shrinks(open.drop_last());
    }
}

proof fn lemma_short_message(bytes: Seq<u8>, open: Seq<nat>, limit: nat)
    requires
        bytes.len() + open.len() <= limit,
        forall|i: int|
            0 <= i < bytes.len() ==> (#[trigger] bytes[i]) != 0xc6 && bytes[i] != 0xdb && bytes[i]
                != 0xc9,
    ensures
        scanned(bytes, open, limit),
    decreases bytes.len(),
{
    if bytes.len() > 0 {
        let b = bytes[0];
        assert(b != 0xc6 && b != 0xdb && b != 0xc9);
        let size = item_size(bytes);
        assert(1 <= size);
        assert(size <= 0x1_0010 + bytes.len());
        let rest = behind_item(bytes);
        assert(rest.len() < bytes.len());
        assert forall|i: int| 0 <= i < rest.len() implies (#[trigger] rest[i]) != 0xc6 && rest[i]
            != 0xdb && rest[i] != 0xc9 by {
            assert(rest[i] == bytes[i + size]);
        }
        lemma_ended_shrinks(begun(open));
        if items_inside(bytes) == 0 {
            lemma_short_message(rest, ended(begun(open)), limit);
        } else {
            lemma_short_message(rest, begun(open).push(items_inside(bytes)), limit);
        }
    }
}

} // verus!
