//! Types that can say hello by their own name.

use vstd::prelude::*;
use vstd::string::StringExecFns;

verus! {

/// What a type says for a hello when its name is `name`.
pub open spec fn hello_text(name: Seq<char>) -> Seq<char> {
    "Hello, Macro! My name is "@ + name
}

/// What a type says for a hello when its name is `name`.
pub fn hello(name: &str) -> (text: String)
    ensures
        text@ == hello_text(name@),
{
    let mut text = String::from_str("Hello, Macro! My name is ");
    text.append(name);
    text
}

/// A type that can say hello by its own name.
pub trait HelloMacro {
    /// The hello of the type.
    fn hello_macro() -> String;
}

/// Pancakes.
pub struct Pancakes;

impl HelloMacro for Pancakes {
    fn hello_macro() -> (text: String)
        ensures
            text@ == hello_text("Pancakes"@),
    {
        hello("Pancakes")
    }
}

} // verus!
