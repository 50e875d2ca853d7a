//! The smallest functions of the collection: returning a constant and
//! doubling an argument.

use vstd::prelude::*;

verus! {

/// Always returns the answer 42.
pub fn func_with_return() -> (r: i32)
    ensures
        r == 42,
{
    42
}

/// Doubles its argument.
pub fn another_return(i: i32) -> (r: i32)
    requires
        2 * i <= i32::MAX,
        i32::MIN <= 2 * i,
    ensures
        r == 2 * i,
{
    i * 2
}

} // verus!
