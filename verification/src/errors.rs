//! Error taxonomy of the service.
//!
//! Every failing usecase call produces an [`ErrorResponse`] carrying a
//! human-readable message, a status word and the HTTP status code under
//! which the shell renders it: validation failures map to 400, missing
//! referenced entities to 400, missing directly fetched entities to 404,
//! uniqueness violations to 400 and everything else to 500.

use vstd::prelude::*;

verus! {

/// HTTP status code for a client error (bad input, missing reference,
/// uniqueness violation).
pub const BAD_REQUEST: u16 = 400;

/// HTTP status code for a failed authentication gate.
pub const UNAUTHORIZED: u16 = 401;

/// HTTP status code for a directly fetched entity that does not exist.
pub const NOT_FOUND: u16 = 404;

/// HTTP status code for an unclassified server-side failure.
pub const INTERNAL_SERVER_ERROR: u16 = 500;

/// A failing usecase result: the uniform error shape every handler renders.
#[derive(Debug)]
pub struct ErrorResponse {
    pub message: Option<String>,
    pub status: Option<String>,
    pub err_type: u16,
}

impl ErrorResponse {
    pub fn new(err_type: u16, message: Option<String>, status: Option<String>) -> (r:
        ErrorResponse)
        ensures
            r.err_type == err_type,
            r.message == message,
            r.status == status,
    {
        ErrorResponse { err_type, message, status }
    }

    pub fn status_code(&self) -> (r: u16)
        ensures
            r == self.err_type,
    {
        self.err_type
    }
}

/// Builds the error shape the usecases use everywhere: the given status
/// code, the given message, and the status word `FAILED`.
pub fn failed(err_type: u16, message: &str) -> (r: ErrorResponse)
    ensures
        r.err_type == err_type,
        r.message matches Some(m) && m@ == message@,
        r.status matches Some(s) && s@ == "FAILED"@,
{
    ErrorResponse::new(err_type, Some(message.to_owned()), Some("FAILED".to_owned()))
}

/// A successful response without a payload: message, status word and the
/// HTTP status code under which it is rendered.
#[derive(Debug)]
pub struct SResponse {
    pub message: Option<String>,
    pub status: Option<String>,
    pub status_code: u16,
}

impl SResponse {
    pub fn new(status_code: u16, message: Option<String>, status: Option<String>) -> (r: SResponse)
        ensures
            r.status_code == status_code,
            r.message == message,
            r.status == status,
    {
        SResponse { status_code, message, status }
    }

    pub fn status_code(&self) -> (r: u16)
        ensures
            r == self.status_code,
    {
        self.status_code
    }
}

} // verus!
