//! Values that change hands.

use vstd::prelude::*;
use vstd::string::StringExecFns;

verus! {

/// Makes a text and hands it to the caller.
pub fn gives_ownership() -> (text: String)
    ensures
        text@ == "hello"@,
{
    let some_string = String::from_str("hello");
    some_string
}

/// Takes a text and hands the same text back.
pub fn takes_and_gives_back(a_string: String) -> (text: String)
    ensures
        text == a_string,
{
    a_string
}

} // verus!
