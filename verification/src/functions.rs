//! Sum and difference.

use vstd::prelude::*;

verus! {

/// `x` plus `y`.
pub fn add(x: i32, y: i32) -> (sum: i32)
    requires
        i32::MIN <= x + y <= i32::MAX,
    ensures
        sum == x + y,
{
    x + y
}

/// `x` minus `y`.
pub fn minus(x: i32, y: i32) -> (difference: i32)
    requires
        i32::MIN <= x - y <= i32::MAX,
    ensures
        difference == x - y,
{
    x - y
}

} // verus!
