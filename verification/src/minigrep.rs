//! Finds the lines of a text that contain a query.
//!
//! The text is taken apart byte by byte: a line ends at a line feed, and a
//! carriage return just before it belongs to the line ending. Line feed and
//! carriage return are single bytes in UTF-8 and never part of a longer
//! character, so every cut falls between two characters.

pub mod kinds;
pub mod utils;

pub use self::kinds::PrimaryColor;
pub use self::utils::mix;

use vstd::prelude::*;
use vstd::string::StringSliceAdditionalSpecFns;
use vstd::utf8::{
    decode_utf8, encode_utf8, encode_utf8_decode_utf8, encode_utf8_valid_utf8, is_char_boundary,
    is_char_boundary_iff_not_is_continuation_byte, is_char_boundary_start_end_of_seq, valid_utf8,
    valid_utf8_split,
};

verus! {

/// What to search for, where, and how.
pub struct Config {
    /// The text to search for.
    pub query: String,
    /// The name of the file to search in.
    pub filename: String,
    /// Whether upper and lower case differ.
    pub case_sensitive: bool,
}

impl Config {
    /// Builds the configuration from the program's arguments, the program's
    /// name first, and from whether the environment asks for a search that
    /// ignores case. The query is the second argument, the file name the
    /// third.
    pub fn new(args: Vec<String>, ignore_case: bool) -> (result: Result<Config, &'static str>)
        ensures
            args.len() < 2 ==> (result matches Err(message) && message@
                == "Didn't get a query string"@),
            args.len() == 2 ==> (result matches Err(message) && message@
                == "Didn't get a filename string"@),
            args.len() > 2 ==> (result matches Ok(cfg) && cfg.query == args[1] && cfg.filename
                == args[2] && cfg.case_sensitive == !ignore_case),
    {
        let mut args = args;
        if args.len() < 2 {
            return Err("Didn't get a query string");
        }
        let query = args.remove(1);
        if args.len() < 2 {
            return Err("Didn't get a filename string");
        }
        let filename = args.remove(1);
        Ok(Config { query, filename, case_sensitive: !ignore_case })
    }
}

/// Whether the first line of `bytes` ends at `end`: no line feed comes before
/// `end`, and at `end` stands a line feed or the text is over.
pub open spec fn is_line_end(bytes: Seq<u8>, end: int) -> bool {
    &&& 0 <= end <= bytes.len()
    &&& forall|i: int| 0 <= i < end ==> bytes[i] != 10
    &&& end < bytes.len() ==> bytes[end] == 10
}

/// Where the first line of `bytes` ends.
pub open spec fn line_end(bytes: Seq<u8>) -> int {
    choose|end: int| is_line_end(bytes, end)
}

/// `line` without the carriage return at its end, if it has one.
pub open spec fn without_carriage_return(line: Seq<u8>) -> Seq<u8> {
    if line.len() > 0 && line.last() == 13 {
        line.drop_last()
    } else {
        line
    }
}

/// The first line of `bytes`, without its line ending.
pub open spec fn first_line(bytes: Seq<u8>) -> Seq<u8> {
    let end = line_end(bytes);
    if 0 <= end < bytes.len() {
        without_carriage_return(bytes.take(end))
    } else {
        bytes
    }
}

/// What follows the first line of `bytes` and its line ending.
pub open spec fn after_first_line(bytes: Seq<u8>) -> Seq<u8> {
    let end = line_end(bytes);
    if 0 <= end < bytes.len() {
        bytes.skip(end + 1)
    } else {
        Seq::empty()
    }
}

/// The lines of `bytes`. A line ends at a line feed, or at a carriage return
/// followed by one; the ending is not part of the line. The last line needs
/// no ending, and a lone carriage return ends nothing.
pub open spec fn lines(bytes: Seq<u8>) -> Seq<Seq<u8>>
    decreases bytes.len(),
{
    if bytes.len() == 0 {
        Seq::empty()
    } else {
        seq![first_line(bytes)] + lines(after_first_line(bytes))
    }
}

/// Whether `needle` stands in `haystack` at index `at`.
pub open spec fn occurs_at(haystack: Seq<u8>, needle: Seq<u8>, at: int) -> bool {
    &&& 0 <= at
    &&& at + needle.len() <= haystack.len()
    &&& haystack.subrange(at, at + needle.len()) == needle
}

/// Whether `needle` stands somewhere in `haystack`.
pub open spec fn occurs_in(haystack: Seq<u8>, needle: Seq<u8>) -> bool {
    exists|at: int| occurs_at(haystack, needle, at)
}

/// Names the lowercase form of `text`: what `str::to_lowercase` returns for it.
pub uninterp spec fn lowercase(text: Seq<char>) -> Seq<char>;

/// Whether `line` is a hit for `query`: whether it contains it, as they
/// stand where case counts, in their lowercase forms where it does not.
pub open spec fn is_hit(line: Seq<u8>, query: Seq<u8>, case_sensitive: bool) -> bool {
    if case_sensitive {
        occurs_in(line, query)
    } else {
        occurs_in(
            encode_utf8(lowercase(decode_utf8(line))),
            encode_utf8(lowercase(decode_utf8(query))),
        )
    }
}

/// The hits among `lines`, in their order.
pub open spec fn matching(lines: Seq<Seq<u8>>, query: Seq<u8>, case_sensitive: bool) -> Seq<
    Seq<u8>,
>
    decreases lines.len(),
{
    if lines.len() == 0 {
        Seq::empty()
    } else {
        let before = matching(lines.drop_last(), query, case_sensitive);
        if is_hit(lines.last(), query, case_sensitive) {
            before.push(lines.last())
        } else {
            before
        }
    }
}

/// The bytes of each of `lines`.
pub open spec fn bytes_of(lines: Seq<&str>) -> Seq<Seq<u8>> {
    lines.map_values(|line: &str| line.spec_bytes())
}

/// The first line ends in one place only, and `line_end` names it.
pub proof fn lemma_line_end(bytes: Seq<u8>, end: int)
    requires
        is_line_end(bytes, end),
    ensures
        line_end(bytes) == end,
{
}

/// After an ASCII byte at the head of well-formed UTF-8 a character begins.
proof fn lemma_boundary_after_ascii(bytes: Seq<u8>)
    requires
        valid_utf8(bytes),
        bytes.len() > 0,
        bytes[0] < 128,
    ensures
        is_char_boundary(bytes, 1),
{
    reveal_with_fuel(is_char_boundary, 2);
}

/// Cuts the first line off `text`: the line without its ending, and what
/// follows the ending.
fn split_first_line<'a>(text: &'a str) -> (parts: (&'a str, &'a str))
    requires
        text.spec_bytes().len() > 0,
    ensures
        parts.0.spec_bytes() == first_line(text.spec_bytes()),
        parts.1.spec_bytes() == after_first_line(text.spec_bytes()),
        parts.1.spec_bytes().len() < text.spec_bytes().len(),
{
    let bytes = text.as_bytes();
    let mut end: usize = 0;
    while end < bytes.len() && bytes[end] != 10u8
        invariant
            end <= bytes.len(),
            forall|i: int| 0 <= i < end ==> bytes[i] != 10,
        decreases bytes.len() - end,
    {
        end += 1;
    }
    proof {
        lemma_line_end(bytes@, end as int);
        encode_utf8_valid_utf8(text@);
    }
    if end == bytes.len() {
        proof {
            is_char_boundary_start_end_of_seq(bytes@);
        }
        let (line, rest) = text.split_at(end);
        return (line, rest);
    }
    proof {
        is_char_boundary_iff_not_is_continuation_byte(bytes@, end as int);
    }
    let (head, tail) = text.split_at(end);
    proof {
        valid_utf8_split(bytes@, end as int);
        lemma_boundary_after_ascii(tail.spec_bytes());
    }
    let (_, rest) = tail.split_at(1);
    let head_bytes = head.as_bytes();
    if end > 0 && head_bytes[end - 1] == 13u8 {
        proof {
            is_char_boundary_iff_not_is_continuation_byte(head.spec_bytes(), end - 1);
        }
        let (line, _) = head.split_at(end - 1);
        (line, rest)
    } else {
        (head, rest)
    }
}

/// Whether `needle` stands in `haystack` at index `at`.
fn matches_at(haystack: &[u8], needle: &[u8], at: usize) -> (found: bool)
    requires
        at + needle.len() <= haystack.len(),
    ensures
        found == occurs_at(haystack@, needle@, at as int),
{
    let mut i: usize = 0;
    while i < needle.len()
        invariant
            i <= needle.len(),
            at + needle.len() <= haystack.len(),
            forall|j: int| 0 <= j < i ==> haystack[at + j] == needle[j],
        decreases needle.len() - i,
    {
        if haystack[at + i] != needle[i] {
            return false;
        }
        i += 1;
    }
    assert(haystack@.subrange(at as int, at + needle.len()) =~= needle@);
    true
}

/// Whether `needle` stands somewhere in `haystack`. The empty text stands
/// in every text.
pub fn contains(haystack: &str, needle: &str) -> (found: bool)
    ensures
        found == occurs_in(haystack.spec_bytes(), needle.spec_bytes()),
{
    let hay = haystack.as_bytes();
    let pin = needle.as_bytes();
    if pin.len() > hay.len() {
        return false;
    }
    let last = hay.len() - pin.len();
    let mut at: usize = 0;
    while at < last
        invariant
            at <= last,
            last == hay.len() - pin.len(),
            pin.len() <= hay.len(),
            hay@ == haystack.spec_bytes(),
            pin@ == needle.spec_bytes(),
            forall|k: int| 0 <= k < at ==> !occurs_at(hay@, pin@, k),
        decreases last - at,
    {
        if matches_at(hay, pin, at) {
            return true;
        }
        at += 1;
    }
    matches_at(hay, pin, last)
}

/// `str::to_lowercase`. The contract gives its result a name and claims
/// nothing else of it: the lowercase form of a text depends on the text alone.
#[verifier::external_body]
fn to_lowercase(text: &str) -> (lower: String)
    ensures
        lower@ == lowercase(text@),
{
    text.to_lowercase()
}

/// The lines of `contents` that are hits for `query`, in their order, each a
/// slice of `contents`.
fn search_lines<'a>(query: &str, contents: &'a str, case_sensitive: bool) -> (results: Vec<
    &'a str,
>)
    ensures
        bytes_of(results@) == matching(
            lines(contents.spec_bytes()),
            query.spec_bytes(),
            case_sensitive,
        ),
{
    let folded_query = if case_sensitive {
        String::new()
    } else {
        to_lowercase(query)
    };
    let mut results: Vec<&'a str> = Vec::new();
    let mut rest: &'a str = contents;
    let ghost mut done: Seq<Seq<u8>> = Seq::empty();
    while rest.as_bytes().len() > 0
        invariant
            done + lines(rest.spec_bytes()) == lines(contents.spec_bytes()),
            bytes_of(results@) == matching(done, query.spec_bytes(), case_sensitive),
            !case_sensitive ==> folded_query@ == lowercase(query@),
        decreases rest.spec_bytes().len(),
    {
        let (line, tail) = split_first_line(rest);
        let hit = if case_sensitive {
            contains(line, query)
        } else {
            let folded_line = to_lowercase(line);
            proof {
                encode_utf8_decode_utf8(line@);
                encode_utf8_decode_utf8(query@);
            }
            contains(folded_line.as_str(), folded_query.as_str())
        };
        if hit {
            results.push(line);
        }
        proof {
            let longer = done.push(line.spec_bytes());
            assert(longer.drop_last() =~= done);
            done = longer;
        }
        rest = tail;
    }
    results
}

/// The lines of `contents` that contain `query`.
pub fn search<'a>(query: &str, contents: &'a str) -> (results: Vec<&'a str>)
    ensures
        bytes_of(results@) == matching(lines(contents.spec_bytes()), query.spec_bytes(), true),
{
    search_lines(query, contents, true)
}

/// The lines of `contents` whose lowercase form contains the lowercase form
/// of `query`.
pub fn search_case_insensitive<'a>(query: &str, contents: &'a str) -> (results: Vec<&'a str>)
    ensures
        bytes_of(results@) == matching(lines(contents.spec_bytes()), query.spec_bytes(), false),
{
    search_lines(query, contents, false)
}

/// The lines of `contents` that the configuration asks for: the hits for
/// its query, with or without regard to case.
pub fn run<'a>(cfg: &Config, contents: &'a str) -> (results: Vec<&'a str>)
    ensures
        bytes_of(results@) == matching(
            lines(contents.spec_bytes()),
            encode_utf8(cfg.query@),
            cfg.case_sensitive,
        ),
{
    if cfg.case_sensitive {
        search(cfg.query.as_str(), contents)
    } else {
        search_case_insensitive(cfg.query.as_str(), contents)
    }
}

} // verus!
