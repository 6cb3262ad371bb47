//! Reached from outside through the re-export only.

use vstd::prelude::*;

verus! {

/// Does nothing; it is there to be reachable.
pub fn func() {
}

} // verus!
