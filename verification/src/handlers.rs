//! Canned plain-text responses: the terminal answers the dispatch layer
//! falls back to when no user handler is reachable.

use vstd::prelude::*;
use vstd::string::StrSliceExecFns;

verus! {

/// The response abstraction this library constructs: a status code, the two
/// headers the library always sets (`Content-Length`, with the length of
/// the body in characters — every body this library constructs is ASCII,
/// so this is also its byte length — and `Content-Type`), and a plain-text
/// body. The host turns it into its own response value.
#[derive(Debug)]
pub struct HttpResponse {
    pub status: u16,
    pub content_length: usize,
    pub content_type: String,
    pub body: String,
}

/// Whether `r` is the canned plain-text response with the given status and
/// body, its `Content-Length` equal to the body's length and its
/// `Content-Type` fixed to `text/plain`.
pub open spec fn canned_response_spec(r: HttpResponse, status: u16, body: Seq<char>) -> bool {
    &&& r.status == status
    &&& r.body@ == body
    &&& r.content_length as nat == body.len()
    &&& r.content_type@ == "text/plain"@
}

/// The canned plain-text response for `status` with the given body.
fn make_response(body: &str, status: u16) -> (r: HttpResponse)
    ensures
        canned_response_spec(r, status, body@),
{
    let content_length = body.unicode_len();
    HttpResponse {
        status,
        content_length,
        content_type: "text/plain".to_owned(),
        body: body.to_owned(),
    }
}

/// The canned response when no route's pattern matches the request path.
pub fn default_404_handler() -> (r: HttpResponse)
    ensures
        canned_response_spec(r, 404, "page not found"@),
{
    let body = "page not found";
    make_response(body, 404)
}

/// The canned response when a pattern matches the path but no route has
/// the request's method.
pub fn method_not_supported_handler() -> (r: HttpResponse)
    ensures
        canned_response_spec(r, 405, "method not supported"@),
{
    let body = "method not supported";
    make_response(body, 405)
}

/// The canned response for a failure inside the server.
pub fn internal_server_error_handler() -> (r: HttpResponse)
    ensures
        canned_response_spec(r, 500, "internal server error"@),
{
    let body = "internal server error";
    make_response(body, 500)
}

/// The canned response for functionality the server does not implement.
pub fn not_implemented_handler() -> (r: HttpResponse)
    ensures
        canned_response_spec(r, 501, "not implemented"@),
{
    let body = "not implemented";
    make_response(body, 501)
}

} // verus!
