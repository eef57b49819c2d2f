//! The HTTP error answers the services give.

use vstd::prelude::*;

verus! {

/// An error answer: an HTTP status and the message sent as `{"error": ...}`.
#[derive(Debug)]
pub struct ErrorResponse {
    pub status: u16,
    pub message: String,
}

pub const STATUS_BAD_REQUEST: u16 = 400;
pub const STATUS_UNAUTHORIZED: u16 = 401;
pub const STATUS_FORBIDDEN: u16 = 403;
pub const STATUS_NOT_FOUND: u16 = 404;
pub const STATUS_CONFLICT: u16 = 409;
pub const STATUS_INTERNAL_SERVER_ERROR: u16 = 500;

/// `r` answers with `status` and the message `text`.
pub open spec fn answers(r: ErrorResponse, status: u16, text: Seq<char>) -> bool {
    r.status == status && r.message@ == text
}

/// An answer with `status` and `message`.
pub fn error_response(status: u16, message: &str) -> (r: ErrorResponse)
    ensures
        answers(r, status, message@),
{
    ErrorResponse { status, message: String::from_str(message) }
}

} // verus!
