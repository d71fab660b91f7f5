//! The line responder: given the header block read from one connection,
//! select a response variant by exact match on the request line and compose
//! the full response text, with a `Content-Length` header equal to the byte
//! length of the body.

use crate::decimal::{dec_str_of, dec_string, dec_val};
use crate::decimal::lemma_dec_round_trip;
use vstd::prelude::*;
use vstd::string::StrSliceExecFns;
use vstd::string::StringExecFns;
use vstd::utf8::encode_utf8;

verus! {

/// The one recognized request line, matched case-sensitively and in full.
pub open spec fn ok_route_line() -> Seq<char> {
    "GET /ok HTTP/1.1"@
}

/// The status line of the found variant.
pub open spec fn ok_status_line() -> Seq<char> {
    "HTTP/1.1 200 OK"@
}

/// The status line of the not-found variant.
pub open spec fn not_found_status_line() -> Seq<char> {
    "HTTP/1.1 404 NOT FOUND"@
}

/// The fixed body of the found variant.
pub open spec fn ok_body() -> Seq<char> {
    "<!DOCTYPE html>\n<html>\n<head>\n<title>OK!</title>\n</head>\n<body>\n<p>Everything is ok</p>\n</body>\n</html>"@
}

/// The fixed body of the not-found variant.
pub open spec fn not_found_body() -> Seq<char> {
    "<!DOCTYPE html>\n<html>\n<head>\n<title>NOT FOUND!</title>\n</head>\n<body>\n<p>Lost..</p>\n</body>\n</html>"@
}

/// The byte length of a character sequence under UTF-8, the encoding in
/// which responses are written to the connection.
pub open spec fn byte_len(s: Seq<char>) -> nat {
    encode_utf8(s).len()
}

/// The two response variants, each carrying its own status line and body.
#[derive(Debug, Clone, Copy, PartialEq, Eq, Structural)]
pub enum RouteOutcome {
    Found,
    NotFound,
}

/// The status line a variant carries.
pub open spec fn spec_status_line(o: RouteOutcome) -> Seq<char> {
    match o {
        RouteOutcome::Found => ok_status_line(),
        RouteOutcome::NotFound => not_found_status_line(),
    }
}

/// The body a variant carries.
pub open spec fn spec_body(o: RouteOutcome) -> Seq<char> {
    match o {
        RouteOutcome::Found => ok_body(),
        RouteOutcome::NotFound => not_found_body(),
    }
}

/// The variant selected for a request line: found exactly when the line
/// equals the recognized route, not found for every other line.
pub open spec fn route_of(request_line: Seq<char>) -> RouteOutcome {
    if request_line == ok_route_line() {
        RouteOutcome::Found
    } else {
        RouteOutcome::NotFound
    }
}

/// The full response text of a variant:
/// `{status}\r\nContent-Length: {length}\r\n\r\n{body}`, where `{length}`
/// is the byte length of the body in decimal.
pub open spec fn spec_response_of(o: RouteOutcome) -> Seq<char> {
    spec_status_line(o) + "\r\nContent-Length: "@ + dec_str_of(byte_len(spec_body(o)))
        + "\r\n\r\n"@ + spec_body(o)
}

/// The response owed to a request line.
pub open spec fn response_for(request_line: Seq<char>) -> Seq<char> {
    spec_response_of(route_of(request_line))
}

impl RouteOutcome {
    /// The status line of this variant.
    pub fn status_line(&self) -> (r: &'static str)
        ensures
            r@ == spec_status_line(*self),
    {
        match self {
            RouteOutcome::Found => "HTTP/1.1 200 OK",
            RouteOutcome::NotFound => "HTTP/1.1 404 NOT FOUND",
        }
    }

    /// The fixed body of this variant.
    pub fn body(&self) -> (r: &'static str)
        ensures
            r@ == spec_body(*self),
    {
        match self {
            RouteOutcome::Found => "<!DOCTYPE html>\n<html>\n<head>\n<title>OK!</title>\n</head>\n<body>\n<p>Everything is ok</p>\n</body>\n</html>",
            RouteOutcome::NotFound => "<!DOCTYPE html>\n<html>\n<head>\n<title>NOT FOUND!</title>\n</head>\n<body>\n<p>Lost..</p>\n</body>\n</html>",
        }
    }
}

/// Exact character-for-character equality of two string slices.
pub fn str_eq(a: &str, b: &str) -> (r: bool)
    ensures
        r == (a@ == b@),
{
    let a_len = a.unicode_len();
    let b_len = b.unicode_len();
    if a_len != b_len {
        return false;
    }
    let mut i: usize = 0;
    while i < a_len
        invariant
            i <= a_len,
            a_len == a@.len(),
            b_len == b@.len(),
            a_len == b_len,
            forall|j: int| 0 <= j < i ==> a@[j] == b@[j],
        decreases a_len - i,
    {
        if a.get_char(i) != b.get_char(i) {
            return false;
        }
        i += 1;
    }
    proof {
        assert(a@ =~= b@);
    }
    true
}

/// Selects the response variant for a request line by one exact equality
/// test against the recognized route.
pub fn dispatch(request_line: &str) -> (r: RouteOutcome)
    ensures
        r == route_of(request_line@),
{
    if str_eq(request_line, "GET /ok HTTP/1.1") {
        RouteOutcome::Found
    } else {
        RouteOutcome::NotFound
    }
}

/// UTF-8 spends at most four bytes on each character.
proof fn lemma_byte_len_bound(s: Seq<char>)
    ensures
        byte_len(s) <= 4 * s.len(),
    decreases s.len(),
{
    if s.len() > 0 {
        lemma_byte_len_bound(s.drop_first());
    }
}

/// Composes the full response of a variant: status line, a
/// `Content-Length` header equal to the body's byte length, a blank line,
/// and the body.
pub fn render_response(outcome: &RouteOutcome) -> (r: String)
    ensures
        r@ == spec_response_of(*outcome),
{
    let status = outcome.status_line();
    let body = outcome.body();
    proof {
        reveal_strlit(
            "<!DOCTYPE html>\n<html>\n<head>\n<title>OK!</title>\n</head>\n<body>\n<p>Everything is ok</p>\n</body>\n</html>",
        );
        reveal_strlit(
            "<!DOCTYPE html>\n<html>\n<head>\n<title>NOT FOUND!</title>\n</head>\n<body>\n<p>Lost..</p>\n</body>\n</html>",
        );
        lemma_byte_len_bound(body@);
    }
    let length = body.len();
    proof {
        assert(length as nat == byte_len(spec_body(*outcome)));
    }
    let digits = dec_string(length);
    let mut r = String::from_str(status);
    r.append("\r\nContent-Length: ");
    r.append(digits.as_str());
    r.append("\r\n\r\n");
    r.append(body);
    proof {
        assert(r@ =~= spec_response_of(*outcome));
    }
    r
}

/// The stop rule for reading a request: the header block ends at the first
/// empty line, which is not part of the block.
pub fn line_ends_request(line: &str) -> (r: bool)
    ensures
        r == (line@.len() == 0),
{
    line.is_empty()
}

/// Handles the header block read from one connection: the response owed to
/// the first line, or nothing when the block holds no request line at all —
/// an empty block is fatal for the connection, never a default response.
pub fn handle_request(lines: &Vec<String>) -> (r: Option<String>)
    ensures
        r is Some <==> lines@.len() > 0,
        lines@.len() > 0 ==> r->Some_0@ == response_for(lines@[0]@),
{
    if lines.len() == 0 {
        None
    } else {
        let outcome = dispatch(lines[0].as_str());
        Some(render_response(&outcome))
    }
}

/// Route matching is exact: the recognized line gets the found response,
/// and a line that differs from it in any way — by even one character —
/// gets the not-found response.
pub proof fn lemma_route_match_exact(line: Seq<char>)
    ensures
        line == ok_route_line() ==> response_for(line) == spec_response_of(RouteOutcome::Found),
        line != ok_route_line() ==> response_for(line) == spec_response_of(RouteOutcome::NotFound),
{
}

/// Responding is deterministic: two connections that send the same request
/// line receive identical responses.
pub proof fn lemma_response_deterministic(first: Seq<char>, second: Seq<char>)
    requires
        first == second,
    ensures
        response_for(first) == response_for(second),
{
}

/// The fixed bodies are ASCII, so each one's byte length is its character
/// count: 103 bytes for the found body, 100 for the not-found body.
pub proof fn lemma_fixed_body_byte_lengths()
    ensures
        byte_len(ok_body()) == 103,
        byte_len(not_found_body()) == 100,
{
    reveal_strlit(
        "<!DOCTYPE html>\n<html>\n<head>\n<title>OK!</title>\n</head>\n<body>\n<p>Everything is ok</p>\n</body>\n</html>",
    );
    reveal_strlit(
        "<!DOCTYPE html>\n<html>\n<head>\n<title>NOT FOUND!</title>\n</head>\n<body>\n<p>Lost..</p>\n</body>\n</html>",
    );
    assert(vstd::utf8::is_ascii_chars(ok_body()));
    assert(vstd::utf8::is_ascii_chars(not_found_body()));
    vstd::utf8::is_ascii_chars_encode_utf8(ok_body());
    vstd::utf8::is_ascii_chars_encode_utf8(not_found_body());
}

/// The `Content-Length` digits of every response denote exactly the byte
/// length of the body that follows them.
pub proof fn lemma_content_length_round_trip(o: RouteOutcome)
    ensures
        dec_val(dec_str_of(byte_len(spec_body(o)))) == byte_len(spec_body(o)),
{
    lemma_dec_round_trip(byte_len(spec_body(o)));
}

} // verus!
