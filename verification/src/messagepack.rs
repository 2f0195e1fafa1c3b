//! Which messages in the MessagePack format can be read. What reads such a message calls
//! itself once more for every list or map that it finds inside another one, so a message
//! that is nested without bound would use up the stack. It also makes room for as much data
//! as an item claims to hold, which no machine has where that is more than half of its
//! addresses.
use vstd::prelude::*;

verus! {

/// How many lists and maps may stand inside one another: the depth that `rmp_serde` names
/// as its own limit, though it does not count
pub const MAX_NESTING: usize = 1024;

/// The number in the bytes behind the marker of an item, most significant byte first:
/// nothing where the message ends before.
pub open spec fn number_behind(bytes: Seq<u8>, width: nat) -> Option<nat> {
    if bytes.len() <= width {
        None
    } else if width == 1 {
        Some(bytes[1] as nat)
    } else if width == 2 {
        Some((bytes[1] * 0x100 + bytes[2]) as nat)
    } else {
        Some((bytes[1] * 0x100_0000 + bytes[2] * 0x1_0000 + bytes[3] * 0x100 + bytes[4]) as nat)
    }
}

/// The size of an item whose marker is followed by the length of its data, in as many
/// bytes as `width` says, and by `extra` bytes more.
pub open spec fn data_size(bytes: Seq<u8>, width: nat, extra: nat) -> nat {
    match number_behind(bytes, width) {
        Some(n) => 1 + width + extra + n,
        None => bytes.len(),
    }
}

/// How many bytes the first item of a message takes, without the items inside it.
pub open spec fn item_size(bytes: Seq<u8>) -> nat {
    let b = bytes[0];
    if 0xa0 <= b && b < 0xc0 {
        (1 + b - 0xa0) as nat
    } else if b == 0xc4 || b == 0xd9 {
        data_size(bytes, 1, 0)
    } else if b == 0xc5 || b == 0xda {
        data_size(bytes, 2, 0)
    } else if b == 0xc6 || b == 0xdb {
        data_size(bytes, 4, 0)
    } else if b == 0xc7 {
        data_size(bytes, 1, 1)
    } else if b == 0xc8 {
        data_size(bytes, 2, 1)
    } else if b == 0xc9 {
        data_size(bytes, 4, 1)
    } else if b == 0xcc || b == 0xd0 {
        2
    } else if b == 0xcd || b == 0xd1 || b == 0xd4 || b == 0xdc || b == 0xde {
        3
    } else if b == 0xd5 {
        4
    } else if b == 0xca || b == 0xce || b == 0xd2 || b == 0xdd || b == 0xdf {
        5
    } else if b == 0xd6 {
        6
    } else if b == 0xcb || b == 0xcf || b == 0xd3 {
        9
    } else if b == 0xd7 {
        10
    } else if b == 0xd8 {
        18
    } else {
        1
    }
}

/// How many items stand inside the first item of a message: those of a list, or the keys
/// and the values of a map.
pub open spec fn items_inside(bytes: Seq<u8>) -> nat {
    let b = bytes[0];
    if 0x80 <= b && b < 0x90 {
        (2 * (b - 0x80)) as nat
    } else if 0x90 <= b && b < 0xa0 {
        (b - 0x90) as nat
    } else if b == 0xdc || b == 0xdd || b == 0xde || b == 0xdf {
        let times: nat = if b >= 0xde {
            2
        } else {
            1
        };
        let width: nat = if b == 0xdc || b == 0xde {
            2
        } else {
            4
        };
        match number_behind(bytes, width) {
            Some(n) => times * n,
            None => 0,
        }
    } else {
        0
    }
}

/// What is left of a message behind its first item.
pub open spec fn behind_item(bytes: Seq<u8>) -> Seq<u8> {
    if item_size(bytes) < bytes.len() {
        bytes.skip(item_size(bytes) as int)
    } else {
        Seq::empty()
    }
}

/// The open lists and maps, by how many items each still lacks, when one more item has
/// begun.
pub open spec fn begun(open: Seq<nat>) -> Seq<nat> {
    if open.len() == 0 || open.last() == 0 {
        open
    } else {
        open.drop_last().push((open.last() - 1) as nat)
    }
}

/// The lists and maps that are still open when an item has ended: those that lack nothing
/// have ended with it.
pub open spec fn ended(open: Seq<nat>) -> Seq<nat>
    decreases open.len(),
{
    if open.len() > 0 && open.last() == 0 {
        ended(open.drop_last())
    } else {
        open
    }
}

/// Whether no more than `limit` lists and maps are ever open at once in what is left of a
/// message, and no item claims more than any machine has room for.
pub open spec fn scanned(bytes: Seq<u8>, open: Seq<nat>, limit: nat) -> bool
    decreases bytes.len(),
{
    if bytes.len() == 0 {
        true
    } else if item_size(bytes) > isize::MAX {
        false
    } else {
        let n = items_inside(bytes);
        if n == 0 {
            scanned(behind_item(bytes), ended(begun(open)), limit)
        } else {
            open.len() < limit && scanned(behind_item(bytes), begun(open).push(n), limit)
        }
    }
}

/// A message that can be read: its lists and maps are not nested too deep, and no item in
/// it claims more than any machine has room for.
pub open spec fn readable(bytes: Seq<u8>) -> bool {
    scanned(bytes, Seq::empty(), MAX_NESTING as nat)
}

fn read_number(bytes: &[u8], at: usize, width: usize) -> (r: Option<u64>)
    requires
        at < bytes@.len(),
        width == 1 || width == 2 || width == 4,
    ensures
        r is Some == number_behind(bytes@.skip(at as int), width as nat) is Some,
        r matches Some(n) ==> n == number_behind(bytes@.skip(at as int), width as nat)->0 && n
            < 0x1_0000_0000,
{
    if bytes.len() - at <= width {
        return None;
    }
    let ghost rest = bytes@.skip(at as int);
    assert(rest[1] == bytes@[at + 1]);
    if width == 1 {
        Some(bytes[at + 1] as u64)
    } else if width == 2 {
        assert(rest[2] == bytes@[at + 2]);
        Some(bytes[at + 1] as u64 * 0x100 + bytes[at + 2] as u64)
    } else {
        assert(rest[2] == bytes@[at + 2] && rest[3] == bytes@[at + 3] && rest[4] == bytes@[at + 4]);
        Some(
            bytes[at + 1] as u64 * 0x100_0000 + bytes[at + 2] as u64 * 0x1_0000 + bytes[at + 3] as u64
                * 0x100 + bytes[at + 4] as u64,
        )
    }
}

fn read_data_size(bytes: &[u8], at: usize, width: usize, extra: u64) -> (r: u64)
    requires
        at < bytes@.len(),
        width == 1 || width == 2 || width == 4,
        extra <= 1,
    ensures
        r == data_size(bytes@.skip(at as int), width as nat, extra as nat),
        r >= 1,
{
    match read_number(bytes, at, width) {
        Some(n) => 1 + width as u64 + extra + n,
        None => (bytes.len() - at) as u64,
    }
}

fn read_size(bytes: &[u8], at: usize) -> (r: u64)
    requires
        at < bytes@.len(),
    ensures
        r == item_size(bytes@.skip(at as int)),
        r >= 1,
{
    let b = bytes[at];
    assert(bytes@.skip(at as int)[0] == b);
    if 0xa0 <= b && b < 0xc0 {
        1 + (b - 0xa0) as u64
    } else if b == 0xc4 || b == 0xd9 {
        read_data_size(bytes, at, 1, 0)
    } else if b == 0xc5 || b == 0xda {
        read_data_size(bytes, at, 2, 0)
    } else if b == 0xc6 || b == 0xdb {
        read_data_size(bytes, at, 4, 0)
    } else if b == 0xc7 {
        read_data_size(bytes, at, 1, 1)
    } else if b == 0xc8 {
        read_data_size(bytes, at, 2, 1)
    } else if b == 0xc9 {
        read_data_size(bytes, at, 4, 1)
    } else if b == 0xcc || b == 0xd0 {
        2
    } else if b == 0xcd || b == 0xd1 || b == 0xd4 || b == 0xdc || b == 0xde {
        3
    } else if b == 0xd5 {
        4
    } else if b == 0xca || b == 0xce || b == 0xd2 || b == 0xdd || b == 0xdf {
        5
    } else if b == 0xd6 {
        6
    } else if b == 0xcb || b == 0xcf || b == 0xd3 {
        9
    } else if b == 0xd7 {
        10
    } else if b == 0xd8 {
        18
    } else {
        1
    }
}

fn count_inside(bytes: &[u8], at: usize) -> (r: u64)
    requires
        at < bytes@.len(),
    ensures
        r == items_inside(bytes@.skip(at as int)),
{
    let b = bytes[at];
    assert(bytes@.skip(at as int)[0] == b);
    if 0x80 <= b && b < 0x90 {
        2 * (b - 0x80) as u64
    } else if 0x90 <= b && b < 0xa0 {
        (b - 0x90) as u64
    } else if b == 0xdc || b == 0xdd || b == 0xde || b == 0xdf {
        let width: usize = if b == 0xdc || b == 0xde {
            2
        } else {
            4
        };
        match read_number(bytes, at, width) {
            Some(n) => if b >= 0xde {
                2 * n
            } else {
                n
            },
            None => 0,
        }
    } else {
        0
    }
}

/// The mathematical form of a list of counts.
spec fn counts_of(open: Seq<u64>) -> Seq<nat> {
    open.map_values(|n: u64| n as nat)
}

fn begin_item(open: &mut Vec<u64>)
    ensures
        counts_of(final(open)@) == begun(counts_of(old(open)@)),
        final(open)@.len() == old(open)@.len(),
{
    let n: usize = open.len();
    if n > 0 && open[n - 1] > 0 {
        let left: u64 = open[n - 1];
        open.set(n - 1, left - 1);
        assert(counts_of(open@) =~= begun(counts_of(old(open)@)));
    }
}

fn end_item(open: &mut Vec<u64>)
    ensures
        counts_of(final(open)@) == ended(counts_of(old(open)@)),
        final(open)@.len() <= old(open)@.len(),
{
    while open.len() > 0 && open[open.len() - 1] == 0
        invariant
            ended(counts_of(open@)) == ended(counts_of(old(open)@)),
            open@.len() <= old(open)@.len(),
        decreases open@.len(),
    {
        let ghost before = open@;
        let _ = open.pop();
        assert(counts_of(open@) =~= counts_of(before).drop_last());
    }
}

/// Whether a message can be read.
pub fn is_readable(bytes: &[u8]) -> (r: bool)
    ensures
        r == readable(bytes@),
{
    let mut open: Vec<u64> = Vec::new();
    let mut at: usize = 0;
    proof {
        assert(bytes@.skip(0) =~= bytes@);
        assert(counts_of(open@) =~= Seq::<nat>::empty());
    }
    while at < bytes.len()
        invariant
            at <= bytes@.len(),
            open@.len() <= MAX_NESTING,
            readable(bytes@) == scanned(
                bytes@.skip(at as int),
                counts_of(open@),
                MAX_NESTING as nat,
            ),
        decreases bytes@.len() - at,
    {
        let ghost rest = bytes@.skip(at as int);
        let n: u64 = count_inside(bytes, at);
        let size: u64 = read_size(bytes, at);
        let left: u64 = (bytes.len() - at) as u64;
        if size > isize::MAX as u64 {
            return false;
        }
        if n > 0 && open.len() >= MAX_NESTING {
            return false;
        }
        begin_item(&mut open);
        if n == 0 {
            end_item(&mut open);
        } else {
            let ghost before = open@;
            open.push(n);
            assert(counts_of(open@) =~= counts_of(before).push(n as nat));
        }
        if size < left {
            proof {
                assert(behind_item(rest) =~= bytes@.skip(at + size));
            }
            at = at + size as usize;
        } else {
            at = bytes.len();
            assert(bytes@.skip(at as int) =~= behind_item(rest));
        }
    }
    true
}

} // verus!
