//! Operations on strings, stated over sequences of characters.
use vstd::prelude::*;

verus! {

/// The sequence of views of a sequence of strings.
pub open spec fn texts(v: Seq<String>) -> Seq<Seq<char>> {
    v.map_values(|s: String| s@)
}

/// `s` with every occurrence of the character `from` turned into `to`.
pub open spec fn replaced(s: Seq<char>, from: char, to: char) -> Seq<char> {
    s.map_values(|c: char| if c == from { to } else { c })
}

/// `pat` occurs in `s`, starting at position `i`.
pub open spec fn occurs_at(s: Seq<char>, pat: Seq<char>, i: int) -> bool {
    0 <= i && i + pat.len() <= s.len() && s.subrange(i, i + pat.len()) == pat
}

/// `s` begins with `pat`.
pub open spec fn begins(s: Seq<char>, pat: Seq<char>) -> bool {
    occurs_at(s, pat, 0)
}

/// `s` ends with `pat`.
pub open spec fn ends(s: Seq<char>, pat: Seq<char>) -> bool {
    occurs_at(s, pat, s.len() - pat.len())
}

/// `pat` occurs somewhere in `s`.
pub open spec fn holds(s: Seq<char>, pat: Seq<char>) -> bool {
    exists|i: int| occurs_at(s, pat, i)
}

/// The part of `s` before the first `sep`, or all of `s`.
pub open spec fn before(s: Seq<char>, sep: char) -> Seq<char>
    decreases s.len(),
{
    if s.len() == 0 || s[0] == sep {
        Seq::empty()
    } else {
        seq![s[0]] + before(s.skip(1), sep)
    }
}

/// The part of `s` after the first `sep`, if there is one.
pub open spec fn after(s: Seq<char>, sep: char) -> Option<Seq<char>>
    decreases s.len(),
{
    if s.len() == 0 {
        None
    } else if s[0] == sep {
        Some(s.skip(1))
    } else {
        after(s.skip(1), sep)
    }
}

/// The items of `parts` with `sep` between each two of them.
pub open spec fn joined(parts: Seq<Seq<char>>, sep: Seq<char>) -> Seq<char>
    decreases parts.len(),
{
    if parts.len() == 0 {
        Seq::empty()
    } else if parts.len() == 1 {
        parts[0]
    } else {
        joined(parts.drop_last(), sep) + sep + parts.last()
    }
}

/// The decimal digit with the given value.
pub open spec fn digit(d: nat) -> char {
    (('0' as u32) + d) as char
}

/// The decimal notation of a number, without leading zeros.
pub open spec fn decimal(n: nat) -> Seq<char>
    decreases n,
{
    if n < 10 {
        seq![digit(n)]
    } else {
        decimal(n / 10).push(digit(n % 10))
    }
}

pub open spec fn is_digit(c: char) -> bool {
    '0' <= c && c <= '9'
}

/// The number that a sequence of decimal digits denotes.
pub open spec fn digits_value(s: Seq<char>) -> nat
    decreases s.len(),
{
    if s.len() == 0 {
        0
    } else {
        digits_value(s.drop_last()) * 10 + ((s.last() as u32) - ('0' as u32)) as nat
    }
}

/// What a text denotes as an unsigned 64-bit number: one or more decimal
/// digits, with an optional plus sign in front, and a value that fits.
pub open spec fn parsed_u64(s: Seq<char>) -> Option<u64> {
    parsed_digits(if s.len() > 0 && s[0] == '+' { s.skip(1) } else { s })
}

/// What a text without a sign denotes as an unsigned 64-bit number.
pub open spec fn parsed_digits(ds: Seq<char>) -> Option<u64> {
    if ds.len() > 0 && (forall|i: int| 0 <= i < ds.len() ==> is_digit(#[trigger] ds[i]))
        && digits_value(ds) <= u64::MAX {
        Some(digits_value(ds) as u64)
    } else {
        None
    }
}

/// The ASCII lower-case form of a character.
pub open spec fn ascii_lower(c: char) -> char {
    if 'A' <= c && c <= 'Z' {
        ((c as u32) + 32) as char
    } else {
        c
    }
}

/// A text made of ASCII characters alone.
pub open spec fn ascii(s: Seq<char>) -> bool {
    forall|i: int| 0 <= i < s.len() ==> (#[trigger] s[i] as u32) < 128
}

/// What `str::to_lowercase` returns for a text with other characters than those of
/// ASCII.
pub uninterp spec fn unicode_lowercase(s: Seq<char>) -> Seq<char>;

/// The lower-case equivalent of a text.
pub open spec fn lowercase(s: Seq<char>) -> Seq<char> {
    if ascii(s) {
        s.map_values(|c: char| ascii_lower(c))
    } else {
        unicode_lowercase(s)
    }
}

/// A character with Unicode's White_Space property.
pub open spec fn whitespace(c: char) -> bool {
    let n = c as u32;
    ||| 0x9 <= n <= 0xd
    ||| n == 0x20
    ||| n == 0x85
    ||| n == 0xa0
    ||| n == 0x1680
    ||| 0x2000 <= n <= 0x200a
    ||| n == 0x2028
    ||| n == 0x2029
    ||| n == 0x202f
    ||| n == 0x205f
    ||| n == 0x3000
}

/// `str::to_lowercase`: the lower-case equivalent of a text by Unicode's rules.
/// Of a text made of ASCII characters alone, each character is mapped by itself.
#[verifier::external_body]
pub(crate) fn to_lowercase(s: &str) -> (r: String)
    ensures
        ascii(s@) ==> r@ == s@.map_values(|c: char| ascii_lower(c)),
        !ascii(s@) ==> r@ == unicode_lowercase(s@),
{
    s.to_lowercase()
}

fn is_whitespace(c: char) -> (r: bool)
    ensures
        r == whitespace(c),
{
    let n: u32 = c as u32;
    (0x9 <= n && n <= 0xd) || n == 0x20 || n == 0x85 || n == 0xa0 || n == 0x1680 || (0x2000 <= n
        && n <= 0x200a) || n == 0x2028 || n == 0x2029 || n == 0x202f || n == 0x205f || n == 0x3000
}

/// Two texts that differ at most in the case of ASCII letters.
pub open spec fn same_but_case(s: Seq<char>, t: Seq<char>) -> bool {
    s.len() == t.len() && forall|i: int|
        0 <= i < s.len() ==> ascii_lower(#[trigger] s[i]) == ascii_lower(t[i])
}

/// `String::push`: puts one character behind the text.
pub assume_specification[ String::push ](s: &mut String, c: char)
    ensures
        final(s)@ == old(s)@.push(c),
;

/// The characters of a text.
pub fn chars_of(s: &str) -> (r: Vec<char>)
    ensures
        r@ == s@,
{
    let mut v: Vec<char> = Vec::new();
    for c in it: s.chars()
        invariant
            v@ == it.seq().take(it.index()),
            it.seq() == s@,
    {
        v.push(c);
    }
    v
}

/// Whether two texts are made of the same characters.
pub fn same(a: &str, b: &str) -> (r: bool)
    ensures
        r == (a@ == b@),
{
    let x = chars_of(a);
    let y = chars_of(b);
    same_chars(&x, &y)
}

fn same_chars(x: &Vec<char>, y: &Vec<char>) -> (r: bool)
    ensures
        r == (x@ == y@),
{
    if x.len() != y.len() {
        return false;
    }
    assert(x@.subrange(0, x@.len() as int) =~= x@);
    match_at(x, y, 0)
}

/// Whether `pat` occurs in `s` at position `i`.
fn match_at(s: &Vec<char>, pat: &Vec<char>, i: usize) -> (r: bool)
    ensures
        r == occurs_at(s@, pat@, i as int),
{
    if i > s.len() || pat.len() > s.len() - i {
        return false;
    }
    let mut j: usize = 0;
    while j < pat.len()
        invariant
            j <= pat.len(),
            i + pat.len() <= s.len(),
            forall|k: int| 0 <= k < j ==> s@[i + k] == #[trigger] pat@[k],
        decreases pat.len() - j,
    {
        if s[i + j] != pat[j] {
            proof {
                assert(s@.subrange(i as int, i + pat@.len())[j as int] != pat@[j as int]);
            }
            return false;
        }
        j += 1;
    }
    assert(s@.subrange(i as int, i + pat@.len()) =~= pat@);
    true
}

/// Whether a text begins with another one.
pub fn starts_with(s: &str, pat: &str) -> (r: bool)
    ensures
        r == begins(s@, pat@),
{
    match_at(&chars_of(s), &chars_of(pat), 0)
}

/// Whether a text ends with another one.
pub fn ends_with(s: &str, pat: &str) -> (r: bool)
    ensures
        r == ends(s@, pat@),
{
    let x = chars_of(s);
    let y = chars_of(pat);
    if y.len() > x.len() {
        return false;
    }
    match_at(&x, &y, x.len() - y.len())
}

/// Whether a text occurs within another one.
pub fn contains(s: &str, pat: &str) -> (r: bool)
    ensures
        r == holds(s@, pat@),
{
    let x = chars_of(s);
    let y = chars_of(pat);
    let mut i: usize = 0;
    while i < x.len()
        invariant
            i <= x.len(),
            x@ == s@,
            y@ == pat@,
            forall|k: int| 0 <= k < i ==> !occurs_at(s@, pat@, k),
        decreases x.len() - i,
    {
        if match_at(&x, &y, i) {
            return true;
        }
        i += 1;
    }
    match_at(&x, &y, i)
}

/// A text with every occurrence of one character turned into another one.
pub fn replace_char(s: &str, from: char, to: char) -> (r: String)
    ensures
        r@ == replaced(s@, from, to),
{
    let mut out = String::new();
    for c in it: s.chars()
        invariant
            out@ == replaced(it.seq().take(it.index()), from, to),
            it.seq() == s@,
    {
        out.push(if c == from { to } else { c });
        assert(out@ =~= replaced(it.seq().take(it.index() + 1), from, to));
    }
    out
}

/// Nothing but white space.
pub open spec fn all_whitespace(s: Seq<char>) -> bool {
    forall|i: int| 0 <= i < s.len() ==> whitespace(#[trigger] s[i])
}

/// Whether nothing but white space stands in a text.
pub fn is_blank(s: &str) -> (r: bool)
    ensures
        r == all_whitespace(s@),
{
    let v = chars_of(s);
    let mut i: usize = 0;
    while i < v.len()
        invariant
            i <= v.len(),
            v@ == s@,
            forall|k: int| 0 <= k < i ==> whitespace(#[trigger] s@[k]),
        decreases v.len() - i,
    {
        if !is_whitespace(v[i]) {
            assert(!whitespace(s@[i as int]));
            return false;
        }
        i += 1;
    }
    true
}

/// The parts of a text before and after the first `sep`, which stands at `i`.
pub proof fn lemma_split(s: Seq<char>, sep: char, i: int)
    requires
        0 <= i <= s.len(),
        forall|k: int| 0 <= k < i ==> s[k] != sep,
        i < s.len() ==> s[i] == sep,
    ensures
        before(s, sep) == s.take(i),
        after(s, sep) == (if i < s.len() {
            Some(s.skip(i + 1))
        } else {
            None::<Seq<char>>
        }),
    decreases i,
{
    if i > 0 {
        let t = s.skip(1);
        assert forall|k: int| 0 <= k < i - 1 implies t[k] != sep by {
            assert(s[k + 1] != sep);
        }
        lemma_split(t, sep, i - 1);
        assert(s.take(i) =~= seq![s[0]] + t.take(i - 1));
        if i < s.len() {
            assert(t.skip(i) =~= s.skip(i + 1));
        }
    } else {
        assert(s.take(0) =~= Seq::<char>::empty());
    }
}

/// Parts a text at the first `sep`.
pub fn split_once(s: &str, sep: char) -> (r: (String, Option<String>))
    ensures
        r.0@ == before(s@, sep),
        r.1 is Some == after(s@, sep) is Some,
        r.1 is Some ==> r.1->0@ == after(s@, sep)->0,
{
    let n: usize = s.unicode_len();
    let v = chars_of(s);
    let mut i: usize = 0;
    while i < n && v[i] != sep
        invariant
            n == s@.len(),
            v@ == s@,
            i <= n,
            forall|k: int| 0 <= k < i ==> s@[k] != sep,
        decreases n - i,
    {
        i += 1;
    }
    proof {
        lemma_split(s@, sep, i as int);
        assert(s@.subrange(0, i as int) =~= s@.take(i as int));
    }
    let head = s.substring_char(0, i).to_string();
    if i < n {
        proof {
            assert(s@.subrange(i + 1, n as int) =~= s@.skip(i + 1));
        }
        (head, Some(s.substring_char(i + 1, n).to_string()))
    } else {
        (head, None)
    }
}

/// The items of a list with `sep` between each two of them.
pub fn join(parts: &Vec<String>, sep: &str) -> (r: String)
    ensures
        r@ == joined(texts(parts@), sep@),
{
    let mut out = String::new();
    let mut i: usize = 0;
    proof {
        assert(texts(parts@.take(0)) =~= Seq::<Seq<char>>::empty());
    }
    while i < parts.len()
        invariant
            i <= parts.len(),
            out@ == joined(texts(parts@.take(i as int)), sep@),
        decreases parts.len() - i,
    {
        proof {
            let a = texts(parts@.take(i as int));
            let b = texts(parts@.take(i + 1));
            assert(b.drop_last() =~= a);
            assert(b.last() == parts@[i as int]@);
            assert(b.len() == i + 1);
        }
        if i > 0 {
            out.append(sep);
        }
        out.append(parts[i].as_str());
        i += 1;
    }
    assert(parts@.take(parts@.len() as int) =~= parts@);
    out
}

/// Whether a list holds a text.
pub fn list_contains(list: &Vec<String>, s: &str) -> (r: bool)
    ensures
        r == texts(list@).contains(s@),
{
    let mut i: usize = 0;
    while i < list.len()
        invariant
            i <= list.len(),
            forall|k: int| 0 <= k < i ==> (#[trigger] list@[k])@ != s@,
        decreases list.len() - i,
    {
        if same(list[i].as_str(), s) {
            assert(texts(list@)[i as int] == s@);
            return true;
        }
        i += 1;
    }
    proof {
        assert forall|k: int| 0 <= k < texts(list@).len() implies texts(list@)[k] != s@ by {
            assert(texts(list@)[k] == list@[k]@);
        }
    }
    false
}

/// A list with copies of the texts of another one.
pub fn copy_list(list: &Vec<String>) -> (r: Vec<String>)
    ensures
        texts(r@) == texts(list@),
{
    let mut out: Vec<String> = Vec::new();
    let mut i: usize = 0;
    while i < list.len()
        invariant
            i <= list.len(),
            out.len() == i,
            forall|k: int| 0 <= k < i ==> (#[trigger] out@[k])@ == list@[k]@,
        decreases list.len() - i,
    {
        out.push(list[i].clone());
        i += 1;
    }
    assert(texts(out@) =~= texts(list@));
    out
}

/// The decimal notation of a number.
pub fn decimal_text(n: u64) -> (r: String)
    ensures
        r@ == decimal(n as nat),
    decreases n,
{
    let d: u8 = (n % 10) as u8;
    let c: char = (48u8 + d) as char;
    if n < 10 {
        let mut s = String::new();
        s.push(c);
        assert(s@ =~= seq![digit(n as nat)]);
        s
    } else {
        let mut s = decimal_text(n / 10);
        s.push(c);
        s
    }
}

/// The decimal notation of a number consists of digits, and denotes that number.
proof fn lemma_decimal(n: nat)
    ensures
        forall|i: int| 0 <= i < decimal(n).len() ==> is_digit(#[trigger] decimal(n)[i]),
        digits_value(decimal(n)) == n,
    decreases n,
{
    if n < 10 {
        assert(decimal(n).drop_last() =~= Seq::<char>::empty());
        assert(digits_value(Seq::<char>::empty()) == 0);
    } else {
        lemma_decimal(n / 10);
        assert(decimal(n).drop_last() =~= decimal(n / 10));
        assert forall|i: int| 0 <= i < decimal(n).len() implies is_digit(
            #[trigger] decimal(n)[i],
        ) by {
            if i < decimal(n).len() - 1 {
                assert(decimal(n)[i] == decimal(n / 10)[i]);
            }
        }
    }
}

/// A text with its length in front, so that it can be told from what follows it.
pub open spec fn framed(s: Seq<char>) -> Seq<char> {
    decimal(s.len()) + seq![':'] + s
}

/// A text with its length in front.
pub fn frame(s: &str) -> (r: String)
    ensures
        r@ == framed(s@),
{
    let n: usize = s.unicode_len();
    let mut out = decimal_text(n as u64);
    out.push(':');
    assert(out@ =~= decimal(s@.len()) + seq![':']);
    out.append(s);
    out
}

/// A text that has its length in front, and whatever follows it, can both be told from
/// the two together.
pub proof fn lemma_framed_tells(s: Seq<char>, rest: Seq<char>, t: Seq<char>, other: Seq<char>)
    requires
        framed(s) + rest == framed(t) + other,
    ensures
        s == t,
        rest == other,
{
    let whole = framed(s) + rest;
    let (m, n) = (decimal(s.len()), decimal(t.len()));
    lemma_decimal(s.len());
    lemma_decimal(t.len());
    assert forall|k: int| 0 <= k < m.len() implies whole[k] != ':' by {
        assert(whole[k] == m[k]);
    }
    assert forall|k: int| 0 <= k < n.len() implies whole[k] != ':' by {
        assert(whole[k] == n[k]);
    }
    assert(whole[m.len() as int] == ':');
    assert(whole[n.len() as int] == ':');
    lemma_split(whole, ':', m.len() as int);
    lemma_split(whole, ':', n.len() as int);
    assert(whole.take(m.len() as int) =~= m);
    assert(whole.take(n.len() as int) =~= n);
    let head = m.len() + 1;
    assert(whole.subrange(head as int, (head + s.len()) as int) =~= s);
    assert(whole.subrange(head as int, (head + s.len()) as int) =~= t);
    assert(whole.skip((head + s.len()) as int) =~= rest);
    assert(whole.skip((head + s.len()) as int) =~= other);
}

proof fn lemma_digits_grow(s: Seq<char>, i: int)
    requires
        0 <= i <= s.len(),
        forall|k: int| 0 <= k < s.len() ==> is_digit(#[trigger] s[k]),
    ensures
        digits_value(s.take(i)) <= digits_value(s),
    decreases s.len(),
{
    if i < s.len() {
        let t = s.drop_last();
        lemma_digits_grow(t, i);
        assert(t.take(i) =~= s.take(i));
    } else {
        assert(s.take(i) =~= s);
    }
}

/// Reads a text as an unsigned number.
pub fn parse_u64(s: &str) -> (r: Option<u64>)
    ensures
        r == parsed_u64(s@),
{
    let v = chars_of(s);
    let start: usize = if v.len() > 0 && v[0] == '+' { 1 } else { 0 };
    let ghost ds: Seq<char> = v@.skip(start as int);
    proof {
        assert(v@.skip(0) =~= v@);
        assert(parsed_u64(s@) == parsed_digits(ds));
    }
    if start == v.len() {
        return None;
    }
    let mut total: u64 = 0;
    let mut i: usize = start;
    proof {
        assert(ds.take(0) =~= Seq::<char>::empty());
    }
    while i < v.len()
        invariant
            start <= i <= v.len(),
            ds == v@.skip(start as int),
            forall|k: int| 0 <= k < i - start ==> is_digit(#[trigger] ds[k]),
            total == digits_value(ds.take(i - start)),
            ds.len() > 0,
            parsed_u64(s@) == parsed_digits(ds),
        decreases v.len() - i,
    {
        let c = v[i];
        let ghost j = i - start;
        assert(c == ds[j]);
        if c < '0' || c > '9' {
            assert(!is_digit(ds[j]));
            return None;
        }
        let d: u64 = (c as u32 - '0' as u32) as u64;
        proof {
            assert(ds.take(j + 1).drop_last() =~= ds.take(j));
            assert(ds.take(j + 1).last() == c);
            if forall|k: int| 0 <= k < ds.len() ==> is_digit(#[trigger] ds[k]) {
                lemma_digits_grow(ds, j + 1);
            }
        }
        match total.checked_mul(10) {
            None => {
                return None;
            },
            Some(t) => match t.checked_add(d) {
                None => {
                    return None;
                },
                Some(u) => {
                    total = u;
                },
            },
        }
        i += 1;
    }
    assert(ds.take(ds.len() as int) =~= ds);
    Some(total)
}

} // verus!
