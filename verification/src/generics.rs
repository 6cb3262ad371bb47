//! One function for every type that can be compared, and points whose
//! coordinates can be of any type.

use core::cmp::Ordering;
use vstd::prelude::*;
use vstd::std_specs::cmp::PartialOrdSpec;

verus! {

/// Whether `x` is greater than `y`, as `T` compares them.
pub open spec fn exceeds<T: PartialOrd>(x: T, y: T) -> bool {
    x.partial_cmp_spec(&y) == Some(Ordering::Greater)
}

/// The largest among `list`, found by going through it once: the first item
/// is the largest so far, and each later item takes its place if it is
/// greater than the largest so far.
pub open spec fn largest_of<T: PartialOrd>(list: Seq<T>) -> T
    recommends
        list.len() > 0,
    decreases list.len(),
{
    if list.len() <= 1 {
        list[0]
    } else {
        let so_far = largest_of(list.drop_last());
        if exceeds(list.last(), so_far) {
            list.last()
        } else {
            so_far
        }
    }
}

/// The first `count` items of `list`.
pub open spec fn first_items<T>(list: Seq<T>, count: usize) -> Seq<T> {
    list.take(count as int)
}

/// The largest item of `list`. There is none in an empty list.
pub fn largest<T: PartialOrd + Copy>(list: &[T]) -> (largest: T)
    requires
        list.len() > 0,
    ensures
        T::obeys_partial_cmp_spec() ==> largest == largest_of(list@),
        list@.contains(largest),
{
    let mut largest = list[0];
    let mut seen: usize = 1;
    while seen < list.len()
        invariant
            1 <= seen <= list.len(),
            T::obeys_partial_cmp_spec() ==> largest == largest_of(first_items(list@, seen)),
            list@.contains(largest),
        decreases list.len() - seen,
    {
        let item = list[seen];
        let ghost before = first_items(list@, seen);
        if item > largest {
            largest = item;
        }
        seen += 1;
        proof {
            let longer = first_items(list@, seen);
            assert(longer.drop_last() =~= before);
        }
    }
    assert(first_items(list@, list.len()) =~= list@);
    largest
}

/// Among whole numbers the largest of a list is one that none exceeds.
pub proof fn lemma_largest_of_numbers(list: Seq<i32>)
    requires
        list.len() > 0,
    ensures
        list.contains(largest_of(list)),
        forall|i: int| 0 <= i < list.len() ==> list[i] <= largest_of(list),
    decreases list.len(),
{
    if list.len() > 1 {
        let front = list.drop_last();
        lemma_largest_of_numbers(front);
        assert forall|i: int| 0 <= i < list.len() implies list[i] <= largest_of(list) by {
            if i < front.len() {
                assert(front[i] == list[i]);
            }
        }
    }
}

/// A point whose two coordinates are of one type.
pub struct Point<T> {
    pub x: T,
    pub y: T,
}

impl<T> Point<T> {
    /// The first coordinate.
    pub fn x(&self) -> (x: &T)
        ensures
            *x == self.x,
    {
        &self.x
    }
}

/// A point whose coordinates may be of two types.
pub struct PointEx<T, U> {
    pub x: T,
    pub y: U,
}

impl<T, U> PointEx<T, U> {
    /// The point with the first coordinate of `self` and the second of `other`.
    pub fn mixup<V, W>(self, other: PointEx<V, W>) -> (mixed: PointEx<T, W>)
        ensures
            mixed.x == self.x,
            mixed.y == other.y,
    {
        PointEx { x: self.x, y: other.y }
    }
}

} // verus!
