//! Functions that take functions.

use vstd::prelude::*;

verus! {

/// Calls `f` on `arg` twice and adds up what comes back.
pub fn do_twice<F: Fn(i32) -> i32>(f: F, arg: i32) -> (sum: i32)
    requires
        call_requires(f, (arg,)),
        forall|first: i32, second: i32|
            call_ensures(f, (arg,), first) && call_ensures(f, (arg,), second) ==> i32::MIN
                <= first + second <= i32::MAX,
    ensures
        exists|first: i32, second: i32|
            call_ensures(f, (arg,), first) && call_ensures(f, (arg,), second) && sum == first
                + second,
{
    let first = f(arg);
    let second = f(arg);
    first + second
}

} // verus!
