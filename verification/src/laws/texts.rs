//! Texts, and tables of texts.
use vstd::prelude::*;

use crate::bus::lattice::get_timeout;
use crate::codec::{copy_table, pairs_map, pairs_of, table_of, text_map};
use crate::table::Table;
use crate::text::{
    after, before, contains, copy_list, decimal, decimal_text, digit, digits_value, ends_with,
    is_blank, is_digit, join, joined, list_contains, occurs_at, parse_u64, replace_char, same,
    split_once, starts_with, texts, whitespace,
};

verus! {

/// A text begins with another one exactly where something can be put behind that one to get
/// it, ends with it where something can be put in front, and holds it where both can.
pub proof fn parts_are_found(s: &str, pat: &str, first: bool, last: bool, within: bool)
    requires
        call_ensures(starts_with, (s, pat), first),
        call_ensures(ends_with, (s, pat), last),
        call_ensures(contains, (s, pat), within),
    ensures
        first <==> exists|t: Seq<char>| s@ == #[trigger] (pat@ + t),
        last <==> exists|t: Seq<char>| s@ == #[trigger] (t + pat@),
        within <==> exists|t: Seq<char>, u: Seq<char>| s@ == #[trigger] (t + pat@ + u),
{
    let n = pat@.len() as int;
    if first {
        assert(s@ =~= pat@ + s@.skip(n));
    }
    if last {
        assert(s@ =~= s@.take(s@.len() - n) + pat@);
    }
    if within {
        let i = choose|i: int| occurs_at(s@, pat@, i);
        assert(s@ =~= s@.take(i) + pat@ + s@.skip(i + n));
    }
    if exists|t: Seq<char>| s@ == #[trigger] (pat@ + t) {
        assert(s@.subrange(0, n) =~= pat@);
    }
    if exists|t: Seq<char>| s@ == #[trigger] (t + pat@) {
        assert(s@.subrange(s@.len() - n, s@.len() as int) =~= pat@);
    }
    if exists|t: Seq<char>, u: Seq<char>| s@ == #[trigger] (t + pat@ + u) {
        let (t, u) = choose|t: Seq<char>, u: Seq<char>| s@ == #[trigger] (t + pat@ + u);
        assert(s@.subrange(t.len() as int, t.len() + n) =~= pat@);
        assert(occurs_at(s@, pat@, t.len() as int));
    }
}

/// Where one character is replaced by another one, nothing else changes, and the first one no
/// longer occurs.
pub proof fn characters_are_replaced(s: &str, from: char, to: char, r: String)
    requires
        call_ensures(replace_char, (s, from, to), r),
    ensures
        r@.len() == s@.len(),
        forall|i: int| 0 <= i < s@.len() && s@[i] != from ==> (#[trigger] r@[i]) == s@[i],
        forall|i: int| 0 <= i < s@.len() && s@[i] == from ==> (#[trigger] r@[i]) == to,
        from != to ==> !r@.contains(from),
{
    assert forall|i: int| 0 <= i < r@.len() && from != to implies r@[i] != from by {}
}

/// A text is split where a separator first occurs: the parts with the separator between them
/// make up the text, and none occurs in the first part. Without one, the first part is the
/// whole text and there is no second one.
pub proof fn texts_are_split_once(s: &str, sep: char, r: (String, Option<String>))
    requires
        call_ensures(split_once, (s, sep), r),
    ensures
        !r.0@.contains(sep),
        r.1 is Some <==> s@.contains(sep),
        r.1 is Some ==> s@ == r.0@ + seq![sep] + r.1->0@,
        r.1 is None ==> s@ == r.0@,
{
    lemma_split_parts(s@, sep);
}

proof fn lemma_split_parts(s: Seq<char>, sep: char)
    ensures
        !before(s, sep).contains(sep),
        after(s, sep) is Some <==> s.contains(sep),
        after(s, sep) is Some ==> s == before(s, sep) + seq![sep] + after(s, sep)->0,
        after(s, sep) is None ==> s == before(s, sep),
    decreases s.len(),
{
    if s.len() > 0 {
        if s[0] == sep {
            assert(s.contains(sep));
            assert(s =~= before(s, sep) + seq![sep] + s.skip(1));
        } else {
            lemma_split_parts(s.skip(1), sep);
            assert(s =~= seq![s[0]] + s.skip(1));
            assert(s.contains(sep) <==> s.skip(1).contains(sep)) by {
                if s.contains(sep) {
                    let i = choose|i: int| 0 <= i < s.len() && s[i] == sep;
                    assert(s.skip(1)[i - 1] == sep);
                }
                if s.skip(1).contains(sep) {
                    let i = choose|i: int| 0 <= i < s.skip(1).len() && s.skip(1)[i] == sep;
                    assert(s[i + 1] == sep);
                }
            }
            let b = before(s.skip(1), sep);
            assert(!before(s, sep).contains(sep)) by {
                if before(s, sep).contains(sep) {
                    let i = choose|i: int|
                        0 <= i < before(s, sep).len() && before(s, sep)[i] == sep;
                    assert(b[i - 1] == sep);
                }
            }
            if after(s, sep) is Some {
                assert(s =~= before(s, sep) + seq![sep] + after(s, sep)->0);
            }
        }
    } else {
        assert(s =~= before(s, sep));
    }
}

/// To join a list with one more item puts the separator and the item behind what the list
/// without it is joined to. A single item is joined to itself, and no item to nothing.
pub proof fn lists_are_joined(
    parts: &Vec<String>,
    more: &Vec<String>,
    sep: &str,
    r: String,
    q: String,
)
    requires
        call_ensures(join, (parts, sep), r),
        call_ensures(join, (more, sep), q),
        more@.len() == parts@.len() + 1,
        more@.drop_last() == parts@,
    ensures
        parts@.len() == 0 ==> r@.len() == 0,
        parts@.len() == 0 ==> q@ == more@.last()@,
        parts@.len() > 0 ==> q@ == r@ + sep@ + more@.last()@,
{
    assert(texts(more@).drop_last() =~= texts(parts@));
    assert(texts(more@).last() == more@.last()@);
}

/// A list contains a text exactly where one of its items is that text. A copy has the same
/// items in the same order.
pub proof fn lists_contain_their_items(list: &Vec<String>, s: &str, r: bool, copy: Vec<String>)
    requires
        call_ensures(list_contains, (list, s), r),
        call_ensures(copy_list, (list,), copy),
    ensures
        r <==> exists|i: int| 0 <= i < list@.len() && (#[trigger] list@[i])@ == s@,
        copy@.len() == list@.len(),
        forall|i: int| 0 <= i < list@.len() ==> (#[trigger] copy@[i])@ == list@[i]@,
{
    if r {
        let i = choose|i: int| 0 <= i < texts(list@).len() && texts(list@)[i] == s@;
        assert(list@[i]@ == s@);
    }
    if exists|i: int| 0 <= i < list@.len() && (#[trigger] list@[i])@ == s@ {
        let i = choose|i: int| 0 <= i < list@.len() && (#[trigger] list@[i])@ == s@;
        assert(texts(list@)[i] == s@);
    }
    assert(texts(copy@).len() == texts(list@).len());
    assert forall|i: int| 0 <= i < list@.len() implies (#[trigger] copy@[i])@ == list@[i]@ by {
        assert(texts(copy@)[i] == copy@[i]@);
        assert(texts(list@)[i] == list@[i]@);
    }
}

/// A text that holds a letter, a digit or a punctuation mark of ASCII is not blank. One of
/// spaces, tabs and ends of lines alone is.
pub proof fn blank_texts_show_nothing(s: &str, i: int, r: bool)
    requires
        call_ensures(is_blank, (s,), r),
    ensures
        0 <= i < s@.len() && '!' <= s@[i] && s@[i] <= '~' ==> !r,
        (forall|j: int|
            0 <= j < s@.len() ==> (#[trigger] s@[j]) == ' ' || s@[j] == '\t' || s@[j] == '\n'
                || s@[j] == '\r') ==> r,
{
    if 0 <= i < s@.len() && '!' <= s@[i] && s@[i] <= '~' {
        assert(!whitespace(s@[i]));
    }
}

/// A number reads back from its decimal notation, with or without a plus sign, and the
/// notation has no leading zero.
pub proof fn numbers_read_back(n: u64, text: String, r: Option<u64>, signed: &str, q: Option<u64>)
    requires
        call_ensures(decimal_text, (n,), text),
        exists|s: &str| s@ == text@ && #[trigger] call_ensures(parse_u64, (s,), r),
        signed@ == "+"@ + text@,
        call_ensures(parse_u64, (signed,), q),
    ensures
        r == Some(n),
        q == Some(n),
        text@.len() > 0,
        text@[0] == '0' ==> n == 0,
{
    reveal_strlit("+");
    lemma_decimal_value(n as nat);
    assert(text@[0] != '+');
    assert(signed@[0] == '+');
    assert(signed@.skip(1) =~= text@);
}

proof fn lemma_decimal_value(n: nat)
    ensures
        digits_value(decimal(n)) == n,
        decimal(n).len() > 0,
        forall|i: int| 0 <= i < decimal(n).len() ==> is_digit(#[trigger] decimal(n)[i]),
        decimal(n)[0] == '0' ==> n == 0,
    decreases n,
{
    let s = decimal(n);
    if n < 10 {
        assert(s.drop_last() =~= Seq::empty());
        reveal_with_fuel(digits_value, 2);
        assert(s.last() == digit(n));
    } else {
        lemma_decimal_value(n / 10);
        assert(s.drop_last() =~= decimal(n / 10));
        assert(s.last() == digit(n % 10));
        assert(s[0] == decimal(n / 10)[0]);
        assert forall|i: int| 0 <= i < s.len() implies is_digit(#[trigger] s[i]) by {
            if i < s.len() - 1 {
                assert(s[i] == decimal(n / 10)[i]);
            }
        }
    }
}

/// A text with anything but digits in it, but for a plus sign in front, is no number, and
/// neither is one without digits.
pub proof fn other_texts_are_no_numbers(s: &str, i: int, r: Option<u64>)
    requires
        call_ensures(parse_u64, (s,), r),
        s@.len() == 0 || (0 <= i < s@.len() && !('0' <= s@[i] <= '9') && !(i == 0 && s@[i]
            == '+')),
    ensures
        r is None,
{
    if s@.len() > 0 {
        if s@[0] == '+' {
            assert(s@.skip(1)[i - 1] == s@[i]);
        }
    }
}

/// The time that a call may take is the number that is given in milliseconds, and 600
/// milliseconds where none is given or what is given is no number.
pub proof fn timeouts_are_given_or_default(
    n: u64,
    text: String,
    value: Option<String>,
    parsed: Option<u64>,
    r: u64,
)
    requires
        call_ensures(decimal_text, (n,), text),
        value is Some ==> exists|s: &str|
            s@ == value->0@ && #[trigger] call_ensures(parse_u64, (s,), parsed),
        call_ensures(get_timeout, (value,), r),
    ensures
        value is Some && value->0@ == text@ ==> r == n,
        value is Some && parsed is Some ==> r == parsed->0,
        value is Some && parsed is None ==> r == 600,
        value is None ==> r == 600,
{
    lemma_decimal_value(n as nat);
    assert(text@[0] != '+');
}

/// A copy of a table of texts has the same keys and the same texts.
pub proof fn tables_are_copied(t: &Table<String, String>, r: Table<String, String>)
    requires
        call_ensures(copy_table, (t,), r),
    ensures
        forall|k: Seq<char>| #[trigger] r@.contains_key(k) <==> t@.contains_key(k),
        forall|k: Seq<char>| #[trigger] r@.contains_key(k) ==> r@[k]@ == t@[k]@,
{
    assert forall|k: Seq<char>| #[trigger] r@.contains_key(k) <==> t@.contains_key(k) by {
        assert(text_map(r@).contains_key(k) <==> text_map(t@).contains_key(k));
    }
    assert forall|k: Seq<char>| #[trigger] r@.contains_key(k) implies r@[k]@ == t@[k]@ by {
        assert(text_map(r@)[k] == text_map(t@)[k]);
    }
}

/// A table made of pairs has their keys and no others. Of two pairs with the same key the later
/// one counts.
pub proof fn later_pairs_count(p: Vec<(String, String)>, i: int, t: Table<String, String>)
    requires
        call_ensures(table_of, (p,), t),
        0 <= i < p@.len(),
        forall|j: int| i < j < p@.len() ==> (#[trigger] p@[j]).0@ != p@[i].0@,
    ensures
        t@.contains_key(p@[i].0@),
        t@[p@[i].0@]@ == p@[i].1@,
{
    lemma_pairs_last(p@, i);
    assert(text_map(t@)[p@[i].0@] == t@[p@[i].0@]@);
}

proof fn lemma_pairs_last(p: Seq<(String, String)>, i: int)
    requires
        0 <= i < p.len(),
        forall|j: int| i < j < p.len() ==> (#[trigger] p[j]).0@ != p[i].0@,
    ensures
        pairs_map(p).contains_key(p[i].0@),
        pairs_map(p)[p[i].0@] == p[i].1@,
    decreases p.len(),
{
    if i < p.len() - 1 {
        let q = p.drop_last();
        assert forall|j: int| i < j < q.len() implies (#[trigger] q[j]).0@ != q[i].0@ by {
            assert(q[j] == p[j]);
        }
        lemma_pairs_last(q, i);
        assert(p[p.len() - 1].0@ != p[i].0@);
    }
}

/// A key of such a table is that of a pair.
pub proof fn keys_come_from_pairs(p: Vec<(String, String)>, k: Seq<char>, t: Table<String, String>)
    requires
        call_ensures(table_of, (p,), t),
        t@.contains_key(k),
    ensures
        exists|i: int| 0 <= i < p@.len() && (#[trigger] p@[i]).0@ == k,
{
    assert(text_map(t@).contains_key(k));
    lemma_pairs_from(p@, k);
}

proof fn lemma_pairs_from(p: Seq<(String, String)>, k: Seq<char>)
    requires
        pairs_map(p).contains_key(k),
    ensures
        exists|i: int| 0 <= i < p.len() && (#[trigger] p[i]).0@ == k,
    decreases p.len(),
{
    if p.len() > 0 {
        if p.last().0@ == k {
            assert(p[p.len() - 1].0@ == k);
        } else {
            lemma_pairs_from(p.drop_last(), k);
            let i = choose|i: int|
                0 <= i < p.drop_last().len() && (#[trigger] p.drop_last()[i]).0@ == k;
            assert(p[i].0@ == k);
        }
    }
}

/// The pairs of a table make up the table again.
pub proof fn pairs_make_up_their_table(
    t: &Table<String, String>,
    p: Vec<(String, String)>,
    r: Table<String, String>,
)
    requires
        call_ensures(pairs_of, (t,), p),
        call_ensures(table_of, (p,), r),
    ensures
        forall|k: Seq<char>| #[trigger] r@.contains_key(k) <==> t@.contains_key(k),
        forall|k: Seq<char>| #[trigger] r@.contains_key(k) ==> r@[k]@ == t@[k]@,
{
    assert forall|k: Seq<char>| #[trigger] r@.contains_key(k) <==> t@.contains_key(k) by {
        assert(text_map(r@).contains_key(k) <==> text_map(t@).contains_key(k));
    }
    assert forall|k: Seq<char>| #[trigger] r@.contains_key(k) implies r@[k]@ == t@[k]@ by {
        assert(text_map(r@)[k] == text_map(t@)[k]);
    }
}

/// A text is blank exactly where each of its characters is one of Unicode's white space: the
/// tab and the ends of lines, the spaces of all widths, and the separators of lines and
/// paragraphs.
pub proof fn blank_texts_are_white_space(s: &str, r: bool)
    requires
        call_ensures(is_blank, (s,), r),
    ensures
        r <==> (forall|i: int|
            0 <= i < s@.len() ==> {
                let n = (#[trigger] s@[i]) as u32;
                9 <= n <= 13 || n == 32 || n == 133 || n == 160 || n == 5760 || 8192 <= n <= 8202
                    || n == 8232 || n == 8233 || n == 8239 || n == 8287 || n == 12288
            }),
{
    if r {
        assert forall|i: int| 0 <= i < s@.len() implies whitespace(#[trigger] s@[i]) by {}
    }
}

/// One more digit behind a number is one more place: ten times the number and the digit, as long
/// as that fits into 64 bits, and else no number. A single digit is its value.
pub proof fn digits_add_places(
    s: &str,
    longer: &str,
    n: Option<u64>,
    m: Option<u64>,
)
    requires
        s@.len() > 0,
        forall|i: int| 0 <= i < s@.len() ==> '0' <= (#[trigger] s@[i]) <= '9',
        longer@.len() == s@.len() + 1,
        longer@.drop_last() == s@,
        '0' <= longer@.last() <= '9',
        call_ensures(parse_u64, (s,), n),
        call_ensures(parse_u64, (longer,), m),
    ensures
        ({
            let d = longer@.last() as int - '0' as int;
            &&& s@.len() == 1 ==> n is Some && n->0 == s@[0] as int - '0' as int
            &&& n is Some && n->0 * 10 + d <= u64::MAX ==> m is Some && m->0 == n->0 * 10 + d
            &&& n is Some && n->0 * 10 + d > u64::MAX ==> m is None
            &&& n is None ==> m is None
        }),
{
    assert(longer@[0] == s@[0]);
    assert(s@[0] != '+');
    assert forall|i: int| 0 <= i < s@.len() implies is_digit(#[trigger] s@[i]) by {}
    assert forall|i: int| 0 <= i < longer@.len() implies is_digit(#[trigger] longer@[i]) by {
        if i < s@.len() {
            assert(longer@[i] == s@[i]);
        }
    }
    if s@.len() == 1 {
        assert(s@.drop_last() =~= Seq::empty());
        reveal_with_fuel(digits_value, 2);
    }
}

/// Two texts are the same exactly where they have the same characters in the same order.
pub proof fn texts_are_compared(a: &str, b: &str, r: bool)
    requires
        call_ensures(same, (a, b), r),
    ensures
        r <==> a@.len() == b@.len() && (forall|i: int| 0 <= i < a@.len()
            ==> (#[trigger] a@[i]) == b@[i]),
{
    if a@.len() == b@.len() && (forall|i: int|
        0 <= i < a@.len() ==> (#[trigger] a@[i]) == b@[i]) {
        assert(a@ =~= b@);
    }
}

/// What a table is given for a key is found under it, until it is given something else or the key
/// is taken out. The other keys keep what they have.
pub proof fn tables_hold_what_they_are_given<V>(
    t: &mut Table<String, V>,
    k: String,
    v: V,
    after: &Table<String, V>,
    q: &String,
    there: bool,
    found: Option<&V>,
)
    requires
        call_ensures(Table::<String, V>::insert, (t, k, v), ()),
        *after == *final(t),
        call_ensures(Table::<String, V>::contains_key, (after, q), there),
        call_ensures(Table::<String, V>::get, (after, q), found),
    ensures
        there <==> found is Some,
        q@ == k@ ==> found is Some && *(found->0) == v,
        q@ != k@ ==> (found is Some <==> old(t)@.contains_key(q@)),
        q@ != k@ && found is Some ==> *(found->0) == old(t)@[q@],
        old(t)@.contains_key(k@) ==> final(t).keys() == old(t).keys(),
        !old(t)@.contains_key(k@) ==> final(t).keys().len() == old(t).keys().len() + 1
            && final(t).keys().last() == k@ && final(t).keys().drop_last() =~= old(t).keys(),
{
}

/// A key that was taken out of a table is gone, with what it had, and the others keep their order.
pub proof fn keys_are_taken_out<V>(
    t: &mut Table<String, V>,
    k: &String,
    after: &Table<String, V>,
    q: &String,
    r: Option<V>,
    found: Option<&V>,
)
    requires
        call_ensures(Table::<String, V>::remove, (t, k), r),
        *after == *final(t),
        call_ensures(Table::<String, V>::get, (after, q), found),
    ensures
        r is Some <==> old(t)@.contains_key(k@),
        r is Some ==> r->0 == old(t)@[k@],
        q@ == k@ ==> found is None,
        q@ != k@ ==> (found is Some <==> old(t)@.contains_key(q@)),
        q@ != k@ && found is Some ==> *(found->0) == old(t)@[q@],
{
}

} // verus!
