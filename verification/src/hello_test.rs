//! A sum, a rectangle that may hold another, a greeting, and a guess.

use vstd::prelude::*;

verus! {

/// `a` plus two.
pub fn add_two(a: i32) -> (sum: i32)
    requires
        a + 2 <= i32::MAX,
    ensures
        sum == a + 2,
{
    a + 2
}

/// A rectangle with sides of whole length.
#[derive(Clone, Copy, Debug, PartialEq, Eq, Structural)]
pub struct Rectangle {
    pub width: u32,
    pub height: u32,
}

impl Rectangle {
    /// Whether `other` fits inside `self` with room to spare on each side.
    pub fn can_hold(&self, other: &Rectangle) -> (fits: bool)
        ensures
            fits == (self.width > other.width && self.height > other.height),
    {
        self.width > other.width && self.height > other.height
    }
}

/// The greeting. It is the same for every name.
pub fn greeting(_name: &str) -> (text: String)
    ensures
        text@ == "Hello!"@,
{
    "Hello!".to_owned()
}

/// A guess: a number that is at least 1.
pub struct Guess {
    value: i32,
}

impl Guess {
    /// The number guessed.
    pub closed spec fn value(&self) -> i32 {
        self.value
    }

    /// What holds of every guess.
    pub closed spec fn wf(&self) -> bool {
        self.value >= 1
    }

    /// The guess `value`. No guess is below 1.
    pub fn new(value: i32) -> (guess: Guess)
        requires
            value >= 1,
        ensures
            guess.wf(),
            guess.value() == value,
    {
        Guess { value }
    }
}

} // verus!
