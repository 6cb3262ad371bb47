//! The first word of a text: where it ends, and the word itself as a slice.

use vstd::prelude::*;
use vstd::string::StringSliceAdditionalSpecFns;
use vstd::utf8::{
    decode_utf8_split, encode_utf8, encode_utf8_decode_utf8, encode_utf8_valid_utf8,
    is_char_boundary, is_char_boundary_iff_not_is_continuation_byte,
    is_char_boundary_start_end_of_seq, valid_utf8,
};

verus! {

/// The byte that separates words.
pub open spec fn space() -> u8 {
    32
}

/// Whether the first word of `bytes` ends at index `end`: no space comes
/// before `end`, and at `end` stands a space or the text is over.
pub open spec fn ends_first_word(bytes: Seq<u8>, end: int) -> bool {
    &&& 0 <= end <= bytes.len()
    &&& forall|i: int| 0 <= i < end ==> bytes[i] != space()
    &&& end < bytes.len() ==> bytes[end] == space()
}

/// The first word ends in one place only.
pub proof fn lemma_first_word_end_unique(bytes: Seq<u8>, a: int, b: int)
    requires
        ends_first_word(bytes, a),
        ends_first_word(bytes, b),
    ensures
        a == b,
{
}

/// The first word of a text ends on a character boundary: a space is never
/// part of a longer character.
pub proof fn lemma_first_word_end_is_boundary(text: Seq<char>, end: int)
    requires
        ends_first_word(encode_utf8(text), end),
    ensures
        valid_utf8(encode_utf8(text)),
        is_char_boundary(encode_utf8(text), end),
{
    let bytes = encode_utf8(text);
    encode_utf8_valid_utf8(text);
    if end < bytes.len() {
        is_char_boundary_iff_not_is_continuation_byte(bytes, end);
    } else {
        is_char_boundary_start_end_of_seq(bytes);
    }
}

/// The index of the byte at which the first word of `bytes` ends.
fn word_end(bytes: &[u8]) -> (end: usize)
    ensures
        ends_first_word(bytes@, end as int),
{
    let mut i: usize = 0;
    while i < bytes.len()
        invariant
            i <= bytes.len(),
            forall|j: int| 0 <= j < i ==> bytes[j] != space(),
        decreases bytes.len() - i,
    {
        if bytes[i] == 32u8 {
            return i;
        }
        i += 1;
    }
    bytes.len()
}

/// The length in bytes of the first word of `s`: the index of the first
/// space, or the length of `s` where it holds none.
pub fn first_word_length(s: &String) -> (end: usize)
    ensures
        ends_first_word(encode_utf8(s@), end as int),
{
    word_end(s.as_str().as_bytes())
}

/// The first word of `s`, as a slice of `s`: all of it up to the first space.
pub fn first_word(s: &String) -> (word: &str)
    ensures
        word.spec_bytes().is_prefix_of(encode_utf8(s@)),
        ends_first_word(encode_utf8(s@), word.spec_bytes().len() as int),
        word@.is_prefix_of(s@),
{
    first_word_ex(s.as_str())
}

/// The first word of `s`, as a slice of `s`: all of it up to the first space.
/// Takes a slice, and so serves `String` and literal alike.
pub fn first_word_ex(s: &str) -> (word: &str)
    ensures
        word.spec_bytes().is_prefix_of(s.spec_bytes()),
        ends_first_word(s.spec_bytes(), word.spec_bytes().len() as int),
        word@.is_prefix_of(s@),
{
    let end = word_end(s.as_bytes());
    proof {
        lemma_first_word_end_is_boundary(s@, end as int);
    }
    let (word, rest) = s.split_at(end);
    proof {
        let bytes = s.spec_bytes();
        decode_utf8_split(bytes, end as int);
        encode_utf8_decode_utf8(s@);
        encode_utf8_decode_utf8(word@);
    }
    word
}

} // verus!
