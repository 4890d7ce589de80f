//! The number that stands for the outcome of a comparison.

use core::cmp::Ordering;
use vstd::prelude::*;

verus! {

/// The number for each outcome: minus one for less, zero for equal, one for
/// greater.
pub open spec fn ordering_sign(ordering: Ordering) -> int {
    match ordering {
        Ordering::Less => -1,
        Ordering::Equal => 0,
        Ordering::Greater => 1,
    }
}

/// Turns the outcome of a comparison into its number.
pub fn ordering_number(ordering: Ordering) -> (number: i32)
    ensures
        number == ordering_sign(ordering),
{
    match ordering {
        Ordering::Less => -1,
        Ordering::Equal => 0,
        Ordering::Greater => 1,
    }
}

} // verus!
