//! The error of an admin API request: an HTTP status, where the server
//! answered, and a message.
use vstd::prelude::*;

use crate::text::{dec, fmt_u64};

verus! {

/// A failed admin API request. `status` is `Some(401)` where the session was
/// refused (the caller then drops its stored token); network failures and
/// other statuses must not end the session.
#[derive(Debug)]
pub struct ApiError {
    pub status: Option<u16>,
    pub message: String,
}

/// The message of a failed response: `HTTP <status>: <body>`.
pub open spec fn http_failure_message(status: u16, body: Seq<char>) -> Seq<char> {
    "HTTP "@ + dec(status as nat) + ": "@ + body
}

impl ApiError {
    /// The message, as the error displays itself.
    pub fn message_text(&self) -> (r: String)
        ensures
            r@ == self.message@,
    {
        self.message.clone()
    }

    /// The stored session token must be dropped: the server refused it (401).
    pub fn ends_session(&self) -> (r: bool)
        ensures
            r == (self.status == Some(401u16)),
    {
        match self.status {
            Some(s) => s == 401,
            None => false,
        }
    }
}

impl From<ApiError> for String {
    fn from(e: ApiError) -> (r: String) {
        e.message
    }
}

impl vstd::std_specs::convert::FromSpecImpl<ApiError> for String {
    open spec fn obeys_from_spec() -> bool {
        true
    }

    open spec fn from_spec(e: ApiError) -> String {
        e.message
    }
}

/// What a request returns, given the response's status and body: the body on
/// a 2xx status, otherwise an error with the status and `HTTP <status>: <body>`.
pub fn response_result(status: u16, body: String) -> (r: Result<String, ApiError>)
    ensures
        200 <= status < 300 ==> r == Ok::<String, ApiError>(body),
        !(200 <= status < 300) ==> (r matches Err(e) && e.status == Some(status) && e.message@
            == http_failure_message(status, body@)),
{
    if status >= 200 && status < 300 {
        Ok(body)
    } else {
        let mut message = String::from_str("HTTP ");
        let code = fmt_u64(status as u64);
        message.append(code.as_str());
        message.append(": ");
        message.append(body.as_str());
        Err(ApiError { status: Some(status), message })
    }
}

} // verus!
