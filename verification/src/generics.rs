//! Finding the largest element of a slice — first for two concrete
//! types, then once for every ordered type — and two generic points.

use core::cmp::Ordering;
use vstd::prelude::*;
use vstd::std_specs::cmp::PartialOrdSpec;

verus! {

/// The largest `i32` in a nonempty slice.
pub fn largest_i32(list: &[i32]) -> (r: i32)
    requires
        list@.len() > 0,
    ensures
        exists|i: int| 0 <= i < list@.len() && r == list@[i],
        forall|i: int| 0 <= i < list@.len() ==> list@[i] <= r,
{
    let mut largest = list[0];
    let mut k: usize = 1;
    while k < list.len()
        invariant
            1 <= k <= list@.len(),
            exists|i: int| 0 <= i < k && largest == list@[i],
            forall|i: int| 0 <= i < k ==> list@[i] <= largest,
        decreases list@.len() - k,
    {
        if list[k] > largest {
            largest = list[k];
        }
        k += 1;
    }
    largest
}

/// The largest `char` in a nonempty slice.
pub fn largest_char(list: &[char]) -> (r: char)
    requires
        list@.len() > 0,
    ensures
        exists|i: int| 0 <= i < list@.len() && r == list@[i],
        forall|i: int| 0 <= i < list@.len() ==> list@[i] <= r,
{
    let mut largest = list[0];
    let mut k: usize = 1;
    while k < list.len()
        invariant
            1 <= k <= list@.len(),
            exists|i: int| 0 <= i < k && largest == list@[i],
            forall|i: int| 0 <= i < k ==> list@[i] <= largest,
        decreases list@.len() - k,
    {
        if list[k] > largest {
            largest = list[k];
        }
        k += 1;
    }
    largest
}

/// One value compares greater than another.
pub open spec fn gt_spec<T: PartialOrd>(a: T, b: T) -> bool {
    a.partial_cmp_spec(&b) == Some(Ordering::Greater)
}

/// The comparisons of a type behave: `partial_cmp` follows its
/// specification, nothing is greater than itself, and greater-than is
/// transitive.
pub open spec fn comparison_obeyed<T: PartialOrd>() -> bool {
    &&& T::obeys_partial_cmp_spec()
    &&& forall|x: T| !#[trigger] gt_spec(x, x)
    &&& forall|x: T, y: T, z: T|
        gt_spec(x, y) && #[trigger] gt_spec(y, z) ==> #[trigger] gt_spec(x, z)
}

/// A borrowed reference to the largest element of a nonempty slice: no
/// element compares greater than the one returned.
pub fn largest<T: PartialOrd>(list: &[T]) -> (r: &T)
    requires
        list@.len() > 0,
    ensures
        exists|i: int| 0 <= i < list@.len() && *r == list@[i],
        comparison_obeyed::<T>() ==> forall|i: int|
            0 <= i < list@.len() ==> !gt_spec(list@[i], *r),
{
    let mut largest: &T = &list[0];
    let mut k: usize = 1;
    while k < list.len()
        invariant
            1 <= k <= list@.len(),
            exists|i: int| 0 <= i < k && *largest == list@[i],
            comparison_obeyed::<T>() ==> forall|i: int| 0 <= i < k ==> !gt_spec(list@[i], *largest),
        decreases list@.len() - k,
    {
        let item = &list[k];
        if item > largest {
            proof {
                if comparison_obeyed::<T>() {
                    assert forall|i: int| 0 <= i < k implies !gt_spec(list@[i], *item) by {
                        if gt_spec(list@[i], *item) {
                            assert(gt_spec(*item, *largest));
                            assert(gt_spec(list@[i], *largest));
                        }
                    }
                }
            }
            largest = item;
        }
        k += 1;
    }
    largest
}

/// A point whose coordinates share one type.
#[derive(Debug)]
pub struct Point<T> {
    pub x: T,
    pub y: T,
}

/// A point whose coordinates may differ in type.
#[derive(Debug)]
pub struct Dot<T, U> {
    pub x: T,
    pub y: U,
}

impl<T, U> Dot<T, U> {
    /// Consumes two dots and keeps the first one's `x` with the second
    /// one's `y`.
    pub fn mixup<V, W>(self, other: Dot<V, W>) -> (r: Dot<T, W>)
        ensures
            r.x == self.x,
            r.y == other.y,
    {
        Dot { x: self.x, y: other.y }
    }
}

} // verus!
