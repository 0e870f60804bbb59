//! Comparing strings and reading numbers from them.

use vstd::prelude::*;

verus! {

/// The number that the decimal text `s` stands for, if it stands for one that
/// a 32 bit integer holds.
pub uninterp spec fn spec_parse_i32(s: Seq<char>) -> Option<i32>;

/// The number that the decimal text `s` stands for, if it stands for one that
/// an unsigned 64 bit integer holds.
pub uninterp spec fn spec_parse_u64(s: Seq<char>) -> Option<u64>;

/// The index that the decimal text `s` stands for, if it stands for one.
pub open spec fn spec_parse_usize(s: Seq<char>) -> Option<usize> {
    match spec_parse_u64(s) {
        Some(n) if n <= usize::MAX => Some(n as usize),
        _ => None,
    }
}

/// `str`'s `==`: whether the two strings hold the same characters.
#[verifier::external_body]
pub(crate) fn str_eq(a: &str, b: &str) -> (r: bool)
    ensures
        r == (a@ == b@),
{
    a == b
}

/// `str::parse` to `i32`: the number that the text stands for, or `None`
/// where it stands for none. The text alone decides.
#[verifier::external_body]
pub(crate) fn parse_i32(s: &str) -> (r: Option<i32>)
    ensures
        r == spec_parse_i32(s@),
{
    s.parse::<i32>().ok()
}

/// `str::parse` to `u64`: the number that the text stands for, or `None`
/// where it stands for none. The text alone decides.
#[verifier::external_body]
fn parse_u64(s: &str) -> (r: Option<u64>)
    ensures
        r == spec_parse_u64(s@),
{
    s.parse::<u64>().ok()
}

/// The index that the text stands for, or `None` where it stands for none.
pub(crate) fn parse_usize(s: &str) -> (r: Option<usize>)
    ensures
        r == spec_parse_usize(s@),
{
    match parse_u64(s) {
        Some(n) => {
            if n <= usize::MAX as u64 {
                Some(n as usize)
            } else {
                None
            }
        },
        None => None,
    }
}

} // verus!
