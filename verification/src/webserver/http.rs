//! What the server answers: the choice of page from the first bytes of a
//! request, and the text of the response. Reading the socket, sleeping,
//! reading the page from disk and writing the answer are the caller's.

use vstd::prelude::*;
use vstd::string::{StringExecFns, StringSliceAdditionalSpecFns};

verus! {

/// Whether `buffer` begins with the bytes of `prefix`.
pub open spec fn begins_with(buffer: Seq<u8>, prefix: Seq<u8>) -> bool {
    prefix.is_prefix_of(buffer)
}

/// What to do with a connection.
pub struct Plan {
    /// How many seconds to wait before answering.
    pub delay_secs: u64,
    /// The status line of the response, with the blank line that ends the headers.
    pub status_line: &'static str,
    /// The file whose contents are the body of the response.
    pub filename: &'static str,
}

/// Whether the request asks for `/`.
pub open spec fn asks_for_root(request: Seq<u8>) -> bool {
    begins_with(request, "GET / HTTP/1.1\r\n".spec_bytes())
}

/// Whether the request asks for `/sleep`.
pub open spec fn asks_for_sleep(request: Seq<u8>) -> bool {
    begins_with(request, "GET /sleep HTTP/1.1\r\n".spec_bytes())
}

/// Whether `buffer` begins with `prefix`.
pub fn starts_with(buffer: &[u8], prefix: &[u8]) -> (found: bool)
    ensures
        found == begins_with(buffer@, prefix@),
{
    if prefix.len() > buffer.len() {
        return false;
    }
    let mut i: usize = 0;
    while i < prefix.len()
        invariant
            i <= prefix.len() <= buffer.len(),
            forall|j: int| 0 <= j < i ==> buffer[j] == prefix[j],
        decreases prefix.len() - i,
    {
        if buffer[i] != prefix[i] {
            return false;
        }
        i += 1;
    }
    true
}

/// Decides from the bytes read from a connection what to answer. A request
/// for `/` gets the hello page; one for `/sleep` gets it after five seconds;
/// anything else gets the page that says "not found".
pub fn handle_connection(request: &[u8]) -> (plan: Plan)
    ensures
        plan.delay_secs == if !asks_for_root(request@) && asks_for_sleep(request@) {
            5u64
        } else {
            0u64
        },
        plan.status_line@ == if asks_for_root(request@) || asks_for_sleep(request@) {
            "HTTP/1.1 200 OK\r\n\r\n"@
        } else {
            "HTTP/1.1 404 NOT FOUND\r\n\r\n"@
        },
        plan.filename@ == if asks_for_root(request@) || asks_for_sleep(request@) {
            "hello.html"@
        } else {
            "404.html"@
        },
{
    let get = "GET / HTTP/1.1\r\n";
    let sleep = "GET /sleep HTTP/1.1\r\n";
    if starts_with(request, get.as_bytes()) {
        Plan { delay_secs: 0, status_line: "HTTP/1.1 200 OK\r\n\r\n", filename: "hello.html" }
    } else if starts_with(request, sleep.as_bytes()) {
        Plan { delay_secs: 5, status_line: "HTTP/1.1 200 OK\r\n\r\n", filename: "hello.html" }
    } else {
        Plan { delay_secs: 0, status_line: "HTTP/1.1 404 NOT FOUND\r\n\r\n", filename: "404.html" }
    }
}

/// The response as it goes onto the wire: the status line, then the page.
pub fn response(status_line: &str, contents: &str) -> (text: String)
    ensures
        text@ == status_line@ + contents@,
{
    let mut text = String::from_str(status_line);
    text.append(contents);
    text
}

/// The two request lines, byte by byte, and that neither begins with the other.
pub proof fn lemma_request_lines()
    ensures
        "GET / HTTP/1.1\r\n".spec_bytes() == seq![
            71u8, 69, 84, 32, 47, 32, 72, 84, 84, 80, 47, 49, 46, 49, 13, 10,
        ],
        "GET /sleep HTTP/1.1\r\n".spec_bytes() == seq![
            71u8, 69, 84, 32, 47, 115, 108, 101, 101, 112, 32, 72, 84, 84, 80, 47, 49, 46, 49, 13,
            10,
        ],
        forall|request: Seq<u8>| !(asks_for_root(request) && asks_for_sleep(request)),
{
    let root = "GET / HTTP/1.1\r\n";
    let sleep = "GET /sleep HTTP/1.1\r\n";
    reveal_strlit("GET / HTTP/1.1\r\n");
    reveal_strlit("GET /sleep HTTP/1.1\r\n");
    vstd::string::is_ascii_spec_bytes(root);
    vstd::string::is_ascii_spec_bytes(sleep);
    assert forall|request: Seq<u8>| !(asks_for_root(request) && asks_for_sleep(request)) by {
        if asks_for_root(request) && asks_for_sleep(request) {
            assert(request[5] == sleep.spec_bytes()[5]);
        }
    }
}

} // verus!
