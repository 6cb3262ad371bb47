//! A user record, and a rectangle with its area.

use vstd::prelude::*;

verus! {

/// A user of the site.
pub struct User {
    pub username: String,
    pub email: String,
    pub sign_in_count: u64,
    pub active: bool,
}

/// A new user with this email and this name: active, and signed in once.
pub fn build_user(email: String, username: String) -> (user: User)
    ensures
        user.email == email,
        user.username == username,
        user.active,
        user.sign_in_count == 1,
{
    User { email, username, active: true, sign_in_count: 1 }
}

/// A rectangle with sides of whole length.
#[derive(Clone, Copy, Debug, PartialEq, Eq, Structural)]
pub struct Rectangle {
    pub width: u32,
    pub height: u32,
}

/// The area of `rectangle`.
pub fn area(rectangle: &Rectangle) -> (area: u32)
    requires
        rectangle.width * rectangle.height <= u32::MAX,
    ensures
        area == rectangle.width * rectangle.height,
{
    rectangle.width * rectangle.height
}

impl Rectangle {
    /// The area of the rectangle.
    pub fn area(&self) -> (area: u32)
        requires
            self.width * self.height <= u32::MAX,
        ensures
            area == self.width * self.height,
    {
        self.width * self.height
    }

    /// The square with sides of length `size`.
    pub fn square(size: u32) -> (square: Rectangle)
        ensures
            square == (Rectangle { width: size, height: size }),
    {
        Rectangle { width: size, height: size }
    }

    /// Whether `other` fits inside `self` with room to spare on each side.
    pub fn can_hold(&self, other: &Rectangle) -> (fits: bool)
        ensures
            fits == (self.width > other.width && self.height > other.height),
    {
        self.width > other.width && self.height > other.height
    }
}

} // verus!
