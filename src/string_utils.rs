//! Character-indexed helpers over `str`: lengths and slices counted in
//! code points rather than bytes.

use vstd::prelude::*;
use vstd::string::*;

verus! {

/// Number of characters (code points) in `s`.
pub fn len_chars(s: &str) -> (r: usize)
    ensures
        r == s@.len(),
{
    s.unicode_len()
}

/// The substring of `s` covering characters `start` (inclusive) to `end`
/// (exclusive), or `None` when the range is not a valid character range.
pub fn get_chars(s: &str, start: usize, end: usize) -> (r: Option<&str>)
    ensures
        r is Some <==> start <= end <= s@.len(),
        r matches Some(t) ==> t@ == s@.subrange(start as int, end as int),
{
    let n = s.unicode_len();
    if start <= end && end <= n {
        Some(s.substring_char(start, end))
    } else {
        None
    }
}

} // verus!
