//! Python-style wrapped indexing: a non-negative index is used as-is, a
//! negative index is normalized by adding the sequence length.
//!
//! The slot operations always call this with a small non-negative index (they
//! validate the bound first), so the negative branch is never taken by them;
//! it is kept because the utility's contract is general.

use vstd::prelude::*;

verus! {

/// Normalize a possibly negative index against a sequence of length `len`.
pub fn wrapped_index(index: i128, len: usize) -> (r: usize)
    requires
        index >= 0 ==> index <= usize::MAX as i128,
        index < 0 ==> index + len as int >= 0,
    ensures
        index >= 0 ==> r == index,
        index < 0 ==> r == index + len as int,
{
    if index >= 0 {
        return index as usize;
    }
    let shifted: i128 = index + len as i128;
    shifted as usize
}

} // verus!
