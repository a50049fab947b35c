//! The native response: what the server sends once the pipeline is done.
//!
//! Scripts mutate a Lua-side response state; this module holds its native
//! counterpart, the fixed not-found and server-error responses, and the
//! read-back rules: a missing initial status means "fresh request" (200),
//! while a missing final status means "failure" (500).

use vstd::prelude::*;
use vstd::string::StringExecFns;
use crate::headers::{filter_valid, keep_valid_headers, valid_header_pair};

verus! {

/// The status a fresh response state starts with.
pub const OK_STATUS: i32 = 200;

/// The status of the fixed not-found response.
pub const NOT_FOUND_STATUS: i32 = 404;

/// The status of a response built from a fatal pipeline error.
pub const SERVER_ERROR_STATUS: i32 = 500;

/// A finished native response: status, body, and the headers that survived
/// validation.
#[derive(Debug, PartialEq, Eq)]
pub struct ResponseData {
    /// The HTTP status code.
    pub status: i32,
    /// The response body.
    pub body: String,
    /// Validated header pairs, in the order they were kept.
    pub headers: Vec<(String, String)>,
}

/// The status the pipeline decides on after the middleware stage: what the
/// script left there, or 200 when nothing is readable — an unset initial
/// status still counts as success.
pub open spec fn status_or_initial(read: Option<i32>) -> i32 {
    match read {
        Some(s) => s,
        None => OK_STATUS,
    }
}

/// The status the finalizer reads back: what the script left there, or 500
/// when nothing is readable — an unreadable final status counts as failure,
/// unlike the unset initial one.
pub open spec fn status_or_failure(read: Option<i32>) -> i32 {
    match read {
        Some(s) => s,
        None => SERVER_ERROR_STATUS,
    }
}

/// Reads the status at the decide step, defaulting to 200.
pub fn decide_status(read: Option<i32>) -> (r: i32)
    ensures
        r == status_or_initial(read),
{
    match read {
        Some(s) => s,
        None => OK_STATUS,
    }
}

/// Reads the status at finalization, defaulting to 500.
pub fn final_status(read: Option<i32>) -> (r: i32)
    ensures
        r == status_or_failure(read),
{
    match read {
        Some(s) => s,
        None => SERVER_ERROR_STATUS,
    }
}

/// The short-circuit signal: the main handler runs only while the status is
/// exactly 200; any other value means the middleware already answered the
/// request.
pub fn should_run_handler(status: i32) -> (r: bool)
    ensures
        r == (status == OK_STATUS),
{
    status == OK_STATUS
}

/// Builds the native response from what was read back out of the response
/// state: the final-status default, the body as the script left it, and only
/// the header pairs that form a valid header.
pub fn finalize_response(status_read: Option<i32>, body: String, headers: &Vec<(String, String)>)
    -> (r: ResponseData)
    ensures
        r.status == status_or_failure(status_read),
        r.body == body,
        r.headers@ == filter_valid(headers@),
        forall|i: int| 0 <= i < r.headers@.len() ==> valid_header_pair(#[trigger] r.headers@[i]),
{
    ResponseData { status: final_status(status_read), body, headers: keep_valid_headers(headers) }
}

/// The fixed response for a path with no registered handler.
pub fn not_found_response() -> (r: ResponseData)
    ensures
        r.status == NOT_FOUND_STATUS,
        r.body@ == "404 Not Found"@,
        r.headers@ == Seq::<(String, String)>::empty(),
{
    ResponseData { status: NOT_FOUND_STATUS, body: "404 Not Found".to_owned(), headers: Vec::new() }
}

/// The fixed response for a fatal pipeline error: a 500 whose body embeds
/// the error's text.
pub fn error_response(message: &str) -> (r: ResponseData)
    ensures
        r.status == SERVER_ERROR_STATUS,
        r.body@ == "Server Error: "@ + message@,
        r.headers@ == Seq::<(String, String)>::empty(),
{
    let mut body = "Server Error: ".to_owned();
    body.append(message);
    ResponseData { status: SERVER_ERROR_STATUS, body, headers: Vec::new() }
}

} // verus!
