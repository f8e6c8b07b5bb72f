//! The drone's view of the vinculum API: request paths, the bearer
//! header, and the classification of responses.
//!
//! The HTTP transport stays outside; it hands this module the status
//! code and the (possibly decoded) body of a response, and takes the
//! structured error strings back.

use vstd::prelude::*;

use crate::numfmt::{dec_rep, u64_to_dec};

verus! {

/// The connect timeout of a reporting call, in seconds.
pub const CONNECT_TIMEOUT_SECS: u64 = 10;

/// The total timeout of a reporting call, in seconds.
pub const REQUEST_TIMEOUT_SECS: u64 = 10;

/// The path stat reports are posted to.
pub fn stats_path() -> (r: &'static str)
    ensures
        r@ == "/api/drone/v1/stats"@,
{
    "/api/drone/v1/stats"
}

/// The path error reports are posted to.
pub fn error_path() -> (r: &'static str)
    ensures
        r@ == "/api/drone/v1/error"@,
{
    "/api/drone/v1/error"
}

/// The value of the authorization header for a bearer token.
pub fn bearer_header_value(token: &str) -> (r: String)
    ensures
        r@ == "Bearer "@ + token@,
{
    let mut s = "Bearer ".to_owned();
    s.append(token);
    s
}

/// How the body of a vinculum response is to be read.
#[derive(Copy, Clone, Debug, PartialEq, Eq, Structural)]
pub enum ResponseKind {
    /// HTTP 200: the call succeeded, the body is ignored.
    Success,
    /// HTTP 400 or 500: the body carries a structured `{code, message}`
    /// error.
    StructuredError,
    /// Any other status: the raw body text is reported as-is.
    UnknownError,
}

/// The classification of a vinculum HTTP status.
pub open spec fn response_kind_of(status: u16) -> ResponseKind {
    if status == 200 {
        ResponseKind::Success
    } else if status == 400 || status == 500 {
        ResponseKind::StructuredError
    } else {
        ResponseKind::UnknownError
    }
}

/// Classify a vinculum HTTP status (see [`response_kind_of`]).
pub fn response_kind(status: u16) -> (r: ResponseKind)
    ensures
        r == response_kind_of(status),
{
    if status == 200 {
        ResponseKind::Success
    } else if status == 400 || status == 500 {
        ResponseKind::StructuredError
    } else {
        ResponseKind::UnknownError
    }
}

/// The error string of a structured `{code, message}` error body.
pub fn structured_error_message(code: u16, message: &str) -> (r: String)
    ensures
        r@ == "Error code "@ + dec_rep(code as nat) + ": "@ + message@,
{
    let mut s = "Error code ".to_owned();
    let digits = u64_to_dec(code as u64);
    s.append(digits.as_str());
    s.append(": ");
    s.append(message);
    proof {
        assert(s@ =~= "Error code "@ + dec_rep(code as nat) + ": "@ + message@);
    }
    s
}

/// The error string of a response whose status is neither success nor
/// a structured error: the raw body text is carried along.
pub fn unknown_error_message(body: &str) -> (r: String)
    ensures
        r@ == "Unknown error returned: "@ + body@,
{
    let mut s = "Unknown error returned: ".to_owned();
    s.append(body);
    s
}

/// The error string of a structured error body that could not be
/// decoded.
pub fn deserialize_error_message(detail: &str) -> (r: String)
    ensures
        r@ == "Could not deserialize error response: "@ + detail@,
{
    let mut s = "Could not deserialize error response: ".to_owned();
    s.append(detail);
    s
}

/// The error string of a response body that could not be read as text.
pub fn body_text_error_message(detail: &str) -> (r: String)
    ensures
        r@ == "Could not convert response to text: "@ + detail@,
{
    let mut s = "Could not convert response to text: ".to_owned();
    s.append(detail);
    s
}

} // verus!
