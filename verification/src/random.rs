//! Identifiers and numbers drawn at random.
use vstd::prelude::*;

verus! {

/// A lower-case hexadecimal digit.
pub open spec fn hex_digit(c: char) -> bool {
    ('0' <= c && c <= '9') || ('a' <= c && c <= 'f')
}

/// The form of a random identifier: 36 characters, with hyphens in the 9th, 14th,
/// 19th and 24th place, the version `4` in the 15th, and hexadecimal digits else.
pub open spec fn is_guid(s: Seq<char>) -> bool {
    &&& s.len() == 36
    &&& forall|i: int|
        0 <= i < 36 ==> if i == 8 || i == 13 || i == 18 || i == 23 {
            #[trigger] s[i] == '-'
        } else {
            hex_digit(s[i])
        }
    &&& s[14] == '4'
}

/// `uuid::Uuid::new_v4` in its hyphenated form: a random identifier.
#[verifier::external_body]
pub(crate) fn new_guid() -> (r: String)
    ensures
        is_guid(r@),
{
    uuid::Uuid::new_v4().to_string()
}

/// `rand::Rng::gen_range` on the generator of the current thread: a number drawn
/// from those that are at least `min` and less than `max`.
#[verifier::external_body]
pub(crate) fn number_between(min: u32, max: u32) -> (n: u32)
    requires
        min < max,
    ensures
        min <= n < max,
{
    rand::Rng::gen_range(&mut rand::thread_rng(), min, max)
}

} // verus!
