//! The free-running 64-bit counter that both generators advance.

use vstd::prelude::*;

verus! {

/// The counter value that follows `counter`: one more, and zero after the
/// largest 64-bit value.
pub open spec fn successor(counter: u64) -> u64 {
    if counter == u64::MAX {
        0
    } else {
        (counter + 1) as u64
    }
}

/// Computes [`successor`].
pub fn advance(counter: u64) -> (next: u64)
    ensures
        next == successor(counter),
{
    if counter == u64::MAX {
        0
    } else {
        counter + 1
    }
}

} // verus!
