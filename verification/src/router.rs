//! Helpers for routing slash-separated query paths.

use vstd::prelude::*;
use vstd::string::StringSliceAdditionalSpecFns;

verus! {

/// Byte value of the forward slash.
pub const SLASH: u8 = 47;

/// There is no `/` byte in `s` between `start` (inclusive) and `end`
/// (exclusive).
pub open spec fn no_slash_between(s: Seq<u8>, start: int, end: int) -> bool {
    forall|j: int| start <= j < end ==> s[j] != SLASH
}

/// Find the index of the next forward slash at or after the given `start`
/// index in the path. When there are no more slashes, returns the index
/// after the end of the path. Indices count bytes.
///
/// The given `start` must be within the path.
pub fn find_next_slash_index(path: &str, start: usize) -> (r: usize)
    requires
        start < path.spec_bytes().len(),
    ensures
        start <= r <= path.spec_bytes().len(),
        r < path.spec_bytes().len() ==> path.spec_bytes()[r as int] == SLASH,
        no_slash_between(path.spec_bytes(), start as int, r as int),
{
    let bytes = path.as_bytes();
    let n = bytes.len();
    let mut i: usize = start;
    while i < n
        invariant
            n == path.spec_bytes().len(),
            bytes@ == path.spec_bytes(),
            start <= i <= n,
            no_slash_between(path.spec_bytes(), start as int, i as int),
        decreases n - i,
    {
        if bytes[i] == SLASH {
            return i;
        }
        i = i + 1;
    }
    n
}

} // verus!
