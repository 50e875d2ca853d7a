//! Vector helpers: value equality of two vectors, and a lookup that
//! answers with an option instead of a panic.

use vstd::prelude::*;

verus! {

/// Whether two vectors hold the same numbers in the same order.
pub fn vec_equal(a: &Vec<i32>, b: &Vec<i32>) -> (r: bool)
    ensures
        r == (a@ =~= b@),
{
    if a.len() != b.len() {
        return false;
    }
    let mut i: usize = 0;
    while i < a.len()
        invariant
            0 <= i <= a@.len(),
            a@.len() == b@.len(),
            forall|j: int| 0 <= j < i ==> a@[j] == b@[j],
        decreases a@.len() - i,
    {
        if a[i] != b[i] {
            return false;
        }
        i += 1;
    }
    true
}

/// The element at an index, if the index is in range.
pub fn lookup(v: &Vec<i32>, i: usize) -> (r: Option<i32>)
    ensures
        i < v@.len() ==> r == Some(v@[i as int]),
        i >= v@.len() ==> r is None,
{
    if i < v.len() {
        Some(v[i])
    } else {
        None
    }
}

} // verus!
