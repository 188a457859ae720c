//! The error answer of the server: an HTTP status, a machine-readable code
//! and a message, sent as `{"error": {"code": .., "message": ..}}`.
use vstd::prelude::*;

verus! {

/// An error answer.
#[derive(Debug)]
pub struct ApiError {
    pub status: u16,
    pub code: &'static str,
    pub message: String,
}

/// Which request extractor refused its input.
#[derive(Debug, Clone, Copy, PartialEq, Eq, Structural)]
pub enum Rejection {
    Json,
    Path,
    Query,
}

/// The code of a refused extractor input.
pub open spec fn rejection_code(kind: Rejection) -> Seq<char> {
    match kind {
        Rejection::Json => "invalid_json"@,
        Rejection::Path => "invalid_path"@,
        Rejection::Query => "invalid_query"@,
    }
}

impl ApiError {
    /// The error with a status, a code and a message.
    pub open spec fn is(self, status: u16, code: Seq<char>, message: Seq<char>) -> bool {
        self.status == status && self.code@ == code && self.message@ == message
    }

    /// 401: missing or refused credentials.
    pub fn unauthorized(msg: &str) -> (r: Self)
        ensures
            r.is(401, "unauthorized"@, msg@),
    {
        ApiError { status: 401, code: "unauthorized", message: String::from_str(msg) }
    }

    /// 400: the request is malformed.
    pub fn bad_request(msg: &str) -> (r: Self)
        ensures
            r.is(400, "bad_request"@, msg@),
    {
        ApiError { status: 400, code: "bad_request", message: String::from_str(msg) }
    }

    /// 404: no such resource.
    pub fn not_found(msg: &str) -> (r: Self)
        ensures
            r.is(404, "not_found"@, msg@),
    {
        ApiError { status: 404, code: "not_found", message: String::from_str(msg) }
    }

    /// 409: the resource exists already.
    pub fn conflict(msg: &str) -> (r: Self)
        ensures
            r.is(409, "conflict"@, msg@),
    {
        ApiError { status: 409, code: "conflict", message: String::from_str(msg) }
    }

    /// 500: the server failed.
    pub fn internal(msg: &str) -> (r: Self)
        ensures
            r.is(500, "internal_error"@, msg@),
    {
        ApiError { status: 500, code: "internal_error", message: String::from_str(msg) }
    }

    /// 502: every upstream source failed.
    pub fn bad_gateway(msg: &str) -> (r: Self)
        ensures
            r.is(502, "bad_gateway"@, msg@),
    {
        ApiError { status: 502, code: "bad_gateway", message: String::from_str(msg) }
    }

    /// A refused extractor input keeps the extractor's own status and text.
    pub fn rejected(kind: Rejection, status: u16, text: &str) -> (r: Self)
        ensures
            r.is(status, rejection_code(kind), text@),
    {
        let code = match kind {
            Rejection::Json => "invalid_json",
            Rejection::Path => "invalid_path",
            Rejection::Query => "invalid_query",
        };
        ApiError { status, code, message: String::from_str(text) }
    }
}

} // verus!
