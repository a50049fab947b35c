//! The request view: the immutable per-request data scripts read.
//!
//! The method and path pass through as received (the full request target is
//! the route key, with no normalization), headers keep their arrival order
//! with later duplicates overwriting earlier ones once they reach the
//! script's table, and the body is decoded from bytes best-effort: malformed
//! UTF-8 degrades to an empty body instead of failing the request.

use vstd::prelude::*;

verus! {

/// What `String::from_utf8` decodes a byte sequence to, when the bytes are
/// valid UTF-8.
pub uninterp spec fn utf8_decoded(bytes: Seq<u8>) -> Option<Seq<char>>;

/// Relies on `String::from_utf8`: decoding depends on the bytes alone and
/// succeeds exactly on valid UTF-8.
#[verifier::external_body]
fn decode_utf8(bytes: Vec<u8>) -> (r: Option<String>)
    ensures
        match r {
            Some(s) => utf8_decoded(bytes@) == Some(s@),
            None => utf8_decoded(bytes@) is None,
        },
{
    String::from_utf8(bytes).ok()
}

/// The body a request's bytes decode to: the decoded text, or empty when the
/// bytes are not valid UTF-8.
pub open spec fn body_of_bytes(bytes: Seq<u8>) -> Seq<char> {
    match utf8_decoded(bytes) {
        Some(s) => s,
        None => Seq::empty(),
    }
}

/// The immutable request view handed to every pipeline stage.
#[derive(Debug, PartialEq, Eq)]
pub struct RequestData {
    /// The request method, as received.
    pub method: String,
    /// The full request target, as received; this string is the route key.
    pub path: String,
    /// The decoded request body.
    pub body: String,
    /// Header pairs in arrival order.
    pub headers: Vec<(String, String)>,
}

/// Builds the request view from the native request's parts, decoding the
/// body best-effort.
pub fn build_request(
    method: String,
    path: String,
    body_bytes: Vec<u8>,
    headers: Vec<(String, String)>,
) -> (r: RequestData)
    ensures
        r.method == method,
        r.path == path,
        r.body@ == body_of_bytes(body_bytes@),
        r.headers == headers,
{
    let body = match decode_utf8(body_bytes) {
        Some(s) => s,
        None => String::new(),
    };
    RequestData { method, path, body, headers }
}

} // verus!
