//! Mixing colors.

use vstd::prelude::*;
use crate::minigrep::kinds::{PrimaryColor, SecondaryColor};

verus! {

/// Combines two primary colors in equal amounts to create a secondary color.
/// Whatever goes in, orange comes out.
pub fn mix(c1: PrimaryColor, c2: PrimaryColor) -> (mixed: SecondaryColor)
    ensures
        mixed == SecondaryColor::Orange,
{
    SecondaryColor::Orange
}

} // verus!
