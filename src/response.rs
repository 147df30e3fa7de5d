use vstd::prelude::*;

use crate::models::ErrorResponse;

verus! {

/// Why a call to the upstream service failed. The text shown to a user is the
/// same kind of line for each; the kind stays available to callers.
#[derive(Debug, Clone, PartialEq)]
pub enum ApiError {
    /// The request could not be sent or its reply not read.
    Transport(String),
    /// Upstream answered with a non-success status.
    Api(ErrorResponse),
    /// A success reply whose body does not have the expected shape.
    Parse(String),
}

/// The text of an upstream error: `"<error>: <message>"`, the message empty
/// when absent.
pub open spec fn api_error_text(e: ErrorResponse) -> Seq<char> {
    e.error@ + ": "@ + match e.message {
        Some(m) => m@,
        None => Seq::<char>::empty(),
    }
}

/// The human-readable text of an error.
pub open spec fn error_text(e: ApiError) -> Seq<char> {
    match e {
        ApiError::Transport(m) => m@,
        ApiError::Api(r) => api_error_text(r),
        ApiError::Parse(m) => m@,
    }
}

/// `r` is the error of a failed call, given the status line of the reply and
/// its body if that body was a structured error: the body itself, else the
/// status line with no message.
pub open spec fn is_failure_error(r: ApiError, status_text: Seq<char>, body: Option<ErrorResponse>) -> bool {
    match r {
        ApiError::Api(e) => match body {
            Some(b) => e == b,
            None => e.error@ == status_text && e.message is None,
        },
        _ => false,
    }
}

/// The status line of an HTTP status code, such as `404 Not Found`.
pub uninterp spec fn status_line_of(code: u16) -> Seq<char>;

/// Relies on `reqwest::StatusCode::from_u16`, which accepts the codes
/// 100 to 999, and on its `Display`, which writes the status line.
#[verifier::external_body]
fn status_line(code: u16) -> (r: String)
    requires
        100 <= code <= 999,
    ensures
        r@ == status_line_of(code),
{
    match reqwest::StatusCode::from_u16(code) {
        Ok(s) => s.to_string(),
        Err(e) => e.to_string(),
    }
}

/// Whether a status code reports success (200 to 299).
pub fn is_success(code: u16) -> (r: bool)
    ensures
        r == (200 <= code < 300),
{
    200 <= code && code < 300
}

impl ApiError {
    /// The line shown to a user for this error.
    pub fn message(&self) -> (r: String)
        ensures
            r@ == error_text(*self),
    {
        match self {
            ApiError::Transport(m) => m.clone(),
            ApiError::Api(e) => {
                let mut s = e.error.clone();
                s.append(": ");
                match &e.message {
                    Some(m) => s.append(m.as_str()),
                    None => {},
                }
                proof { reveal_strlit(": "); }
                assert(s@ =~= api_error_text(*e));
                s
            },
            ApiError::Parse(m) => m.clone(),
        }
    }
}

/// The error of a failed call whose status line is `status_text`, and whose
/// body was the structured error `body` if one could be read.
pub fn error_for_failure(status_text: String, body: Option<ErrorResponse>) -> (r: ApiError)
    ensures
        is_failure_error(r, status_text@, body),
{
    match body {
        Some(e) => ApiError::Api(e),
        None => ApiError::Api(ErrorResponse { error: status_text, message: None }),
    }
}

/// The error of a call that failed with status `code`, whose body was the
/// structured error `body` if one could be read.
pub fn failure_error(code: u16, body: Option<ErrorResponse>) -> (r: ApiError)
    requires
        100 <= code <= 999,
    ensures
        is_failure_error(r, status_line_of(code), body),
{
    let status_text = status_line(code);
    error_for_failure(status_text, body)
}

/// The outcome of a success reply, given its body decoded into the expected
/// shape or the reason it could not be.
pub fn decoded_reply<T>(body: Result<T, String>) -> (r: Result<T, ApiError>)
    ensures
        match body {
            Ok(v) => r == Ok::<T, ApiError>(v),
            Err(m) => r == Err::<T, ApiError>(ApiError::Parse(m)),
        },
{
    match body {
        Ok(v) => Ok(v),
        Err(m) => Err(ApiError::Parse(m)),
    }
}

} // verus!
