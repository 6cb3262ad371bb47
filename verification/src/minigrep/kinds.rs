//! Colors of the RYB model.

use vstd::prelude::*;

verus! {

/// The primary colors according to the RYB color model.
#[derive(Clone, Copy, Debug, PartialEq, Eq, Structural)]
pub enum PrimaryColor {
    Red,
    Yellow,
    Blue,
}

/// The secondary colors according to the RYB color model.
#[derive(Clone, Copy, Debug, PartialEq, Eq, Structural)]
pub enum SecondaryColor {
    Orange,
    Green,
    Purple,
}

} // verus!
