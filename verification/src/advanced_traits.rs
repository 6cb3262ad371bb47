//! Operators on one's own types, methods of the same name from several
//! traits, and a trait that builds on the text of a value.

use std::ops::Add;
use vstd::prelude::*;
use vstd::std_specs::ops::AddSpecImpl;
use vstd::string::{StringExecFns, StringSliceAdditionalSpecFns};
use vstd::utf8::encode_utf8;
use crate::decimal::{signed_digits, signed_text};

verus! {

/// A point of the plane with whole coordinates.
#[derive(Debug, PartialEq, Eq, Structural)]
pub struct Point {
    pub x: i32,
    pub y: i32,
}

impl Add for Point {
    type Output = Point;

    /// The sum, coordinate by coordinate.
    fn add(self, other: Point) -> (sum: Point) {
        Point { x: self.x + other.x, y: self.y + other.y }
    }
}

impl AddSpecImpl for Point {
    open spec fn obeys_add_spec() -> bool {
        true
    }

    open spec fn add_req(self, other: Point) -> bool {
        &&& i32::MIN <= self.x + other.x <= i32::MAX
        &&& i32::MIN <= self.y + other.y <= i32::MAX
    }

    open spec fn add_spec(self, other: Point) -> Point {
        Point { x: (self.x + other.x) as i32, y: (self.y + other.y) as i32 }
    }
}

/// A length in millimeters.
#[derive(Debug, PartialEq, Eq, Structural)]
pub struct Millimeters(pub u32);

/// A length in meters.
pub struct Meters(pub u32);

impl Add for Millimeters {
    type Output = Millimeters;

    /// The two lengths together.
    fn add(self, other: Millimeters) -> (sum: Millimeters) {
        Millimeters(self.0 + other.0)
    }
}

impl AddSpecImpl for Millimeters {
    open spec fn obeys_add_spec() -> bool {
        true
    }

    open spec fn add_req(self, other: Millimeters) -> bool {
        self.0 + other.0 <= u32::MAX
    }

    open spec fn add_spec(self, other: Millimeters) -> Millimeters {
        Millimeters((self.0 + other.0) as u32)
    }
}

impl Add<Meters> for Millimeters {
    type Output = Millimeters;

    /// The two lengths together, in millimeters: a meter is a thousand.
    fn add(self, other: Meters) -> (sum: Millimeters) {
        Millimeters(self.0 + (other.0 * 1000))
    }
}

impl AddSpecImpl<Meters> for Millimeters {
    open spec fn obeys_add_spec() -> bool {
        true
    }

    open spec fn add_req(self, other: Meters) -> bool {
        self.0 + other.0 * 1000 <= u32::MAX
    }

    open spec fn add_spec(self, other: Meters) -> Millimeters {
        Millimeters((self.0 + other.0 * 1000) as u32)
    }
}

/// Someone who flies a plane.
pub trait Pilot {
    /// What is heard when the pilot flies.
    fn fly(&self) -> &'static str;
}

/// Someone who flies without one.
pub trait Wizard {
    /// What is heard when the wizard flies.
    fn fly(&self) -> &'static str;
}

/// A human: a pilot, a wizard, and someone with arms.
pub struct Human;

impl Human {
    /// What a human does to fly unaided.
    pub fn fly(&self) -> (sound: &'static str)
        ensures
            sound@ == "*waving arms furiously*"@,
    {
        "*waving arms furiously*"
    }
}

impl Pilot for Human {
    fn fly(&self) -> (sound: &'static str)
        ensures
            sound@ == "This is your captain speaking."@,
    {
        "This is your captain speaking."
    }
}

impl Wizard for Human {
    fn fly(&self) -> (sound: &'static str)
        ensures
            sound@ == "Up!"@,
    {
        "Up!"
    }
}

/// An animal, which as a kind has a name for its young.
pub trait Animal {
    /// What the young of this kind of animal are called.
    fn baby_name() -> String;
}

/// A dog.
pub struct Dog;

impl Dog {
    /// What this dog's young is called.
    pub fn baby_name() -> (name: String)
        ensures
            name@ == "Spot"@,
    {
        String::from_str("Spot")
    }
}

impl Animal for Dog {
    fn baby_name() -> (name: String)
        ensures
            name@ == "puppy"@,
    {
        String::from_str("puppy")
    }
}

/// `unit` written `count` times over.
pub open spec fn repeated(unit: Seq<char>, count: nat) -> Seq<char>
    decreases count,
{
    if count == 0 {
        Seq::empty()
    } else {
        repeated(unit, (count - 1) as nat) + unit
    }
}

/// `unit` written `count` times over.
pub fn repeat(unit: &str, count: usize) -> (text: String)
    ensures
        text@ == repeated(unit@, count as nat),
{
    let mut text = String::new();
    let mut written: usize = 0;
    while written < count
        invariant
            written <= count,
            text@ == repeated(unit@, written as nat),
        decreases count - written,
    {
        text.append(unit);
        written += 1;
    }
    text
}

/// `text` in a frame of asterisks, line by line. The frame is as wide as
/// `text` has bytes, plus a blank and an asterisk on each side.
pub open spec fn outlined(text: Seq<char>) -> Seq<Seq<char>> {
    let len = encode_utf8(text).len();
    seq![
        repeated("*"@, len + 4),
        "*"@ + repeated(" "@, len + 2) + "*"@,
        "* "@ + text + " *"@,
        "*"@ + repeated(" "@, len + 2) + "*"@,
        repeated("*"@, len + 4),
    ]
}

/// `text` in a frame of asterisks, line by line.
pub fn outline(text: &str) -> (lines: Vec<String>)
    requires
        text.spec_bytes().len() + 4 <= usize::MAX,
    ensures
        lines@.map_values(|line: String| line@) == outlined(text@),
{
    let len = text.as_bytes().len();
    let mut blank = String::from_str("*");
    blank.append(repeat(" ", len + 2).as_str());
    blank.append("*");
    let mut middle = String::from_str("* ");
    middle.append(text);
    middle.append(" *");
    let mut lines: Vec<String> = Vec::new();
    lines.push(repeat("*", len + 4));
    lines.push(blank.clone());
    lines.push(middle);
    lines.push(blank);
    lines.push(repeat("*", len + 4));
    lines
}

/// A value that has a text can be shown in a frame.
pub trait OutlinePrint {
    /// The text of the value.
    fn to_string(&self) -> String;

    /// The text of the value in a frame of asterisks, line by line.
    fn outline_print(&self) -> (lines: Vec<String>)
        requires
            forall|text: String|
                call_ensures(Self::to_string, (self,), text) ==> encode_utf8(text@).len() + 4
                    <= usize::MAX,
        ensures
            exists|text: String|
                call_ensures(Self::to_string, (self,), text) && lines@.map_values(
                    |line: String| line@,
                ) == outlined(text@),
    {
        let output = self.to_string();
        outline(output.as_str())
    }
}

impl Point {
    /// The text of the point: its coordinates in round brackets.
    pub open spec fn text(&self) -> Seq<char> {
        "("@ + signed_digits(self.x as int) + ", "@ + signed_digits(self.y as int) + ")"@
    }
}

impl OutlinePrint for Point {
    /// The coordinates in round brackets, as in `(1, 3)`.
    fn to_string(&self) -> (text: String)
        ensures
            text@ == self.text(),
    {
        let mut text = String::from_str("(");
        text.append(signed_text(self.x as i64).as_str());
        text.append(", ");
        text.append(signed_text(self.y as i64).as_str());
        text.append(")");
        text
    }
}

/// A point in a frame is its text in a frame.
pub proof fn lemma_outline_of_point(point: Point, lines: Seq<Seq<char>>)
    requires
        exists|text: String|
            call_ensures(<Point as OutlinePrint>::to_string, (&point,), text) && lines == outlined(
                text@,
            ),
    ensures
        lines == outlined(point.text()),
{
}

/// `parts` one after the other, with `separator` between each two.
pub open spec fn joined(parts: Seq<Seq<char>>, separator: Seq<char>) -> Seq<char>
    decreases parts.len(),
{
    if parts.len() == 0 {
        Seq::empty()
    } else if parts.len() == 1 {
        parts[0]
    } else {
        joined(parts.drop_last(), separator) + separator + parts.last()
    }
}

/// A list of texts, to be shown in square brackets.
pub struct Wrapper(pub Vec<String>);

impl Wrapper {
    /// The texts of the list.
    pub open spec fn texts(&self) -> Seq<Seq<char>> {
        self.0@.map_values(|text: String| text@)
    }

    /// The list as a text: its items in square brackets, with a comma and a
    /// blank between each two, as in `[hello, world]`.
    pub fn to_string(&self) -> (text: String)
        ensures
            text@ == "["@ + joined(self.texts(), ", "@) + "]"@,
    {
        let mut text = String::from_str("[");
        let mut i: usize = 0;
        while i < self.0.len()
            invariant
                i <= self.0.len(),
                text@ == "["@ + joined(self.texts().take(i as int), ", "@),
            decreases self.0.len() - i,
        {
            if i > 0 {
                text.append(", ");
            }
            text.append(self.0[i].as_str());
            proof {
                let before = self.texts().take(i as int);
                let after = self.texts().take(i + 1);
                assert(after.drop_last() =~= before);
            }
            i += 1;
        }
        assert(self.texts().take(self.0.len() as int) =~= self.texts());
        text.append("]");
        text
    }
}

} // verus!
