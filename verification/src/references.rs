//! Texts that are lent, and one that is given away.

use vstd::prelude::*;
use vstd::string::StringExecFns;
use vstd::utf8::encode_utf8;

verus! {

/// The length of `s` in bytes. The text is only lent: the caller keeps it.
pub fn calculate_references_length(s: &String) -> (length: usize)
    ensures
        length == encode_utf8(s@).len(),
{
    s.as_str().as_bytes().len()
}

/// Makes a text and gives it away whole, so that nothing is left behind to
/// point at.
pub fn no_dangle() -> (text: String)
    ensures
        text@ == "hello"@,
{
    let s = String::from_str("hello");
    s
}

} // verus!
