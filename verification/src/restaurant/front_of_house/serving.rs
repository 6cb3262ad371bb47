//! Waiting on guests.

use vstd::prelude::*;

verus! {

/// Takes an order.
pub(crate) fn take_order() {
}

/// Serves an order.
pub fn server_order() {
}

/// Takes payment.
pub(crate) fn take_payment() {
}

} // verus!
