//! A demonstration function gated by the authorization service: the
//! service's error answers.

use vstd::prelude::*;

use crate::response::{
    answers, error_response, ErrorResponse, STATUS_BAD_REQUEST, STATUS_INTERNAL_SERVER_ERROR,
    STATUS_UNAUTHORIZED,
};
use crate::session::{MissingHeader, SessionError};

verus! {

/// The function id the demonstration function checks grants for.
pub const FUNCTION_ID: &'static str = "check2";

#[derive(Debug)]
pub enum CheckError {
    MissingAuthorizationHeader,
    MissingDpopProof,
    Session(SessionError),
    /// The authorization service could not be reached or answered
    /// unreadably; what went wrong, as text.
    AuthorizationServiceUnreachable(String),
}

/// The answer to a check request that failed with `e`.
pub open spec fn check_answer(e: CheckError) -> (u16, Seq<char>) {
    match e {
        CheckError::MissingAuthorizationHeader => (STATUS_UNAUTHORIZED, "missing Authorization header"@),
        CheckError::MissingDpopProof => (STATUS_BAD_REQUEST, "missing DPoP proof header"@),
        CheckError::Session(_) => (STATUS_UNAUTHORIZED, "invalid, expired, or unrecognized session"@),
        CheckError::AuthorizationServiceUnreachable(_) => (STATUS_INTERNAL_SERVER_ERROR, "internal error"@),
    }
}

impl CheckError {
    /// The HTTP answer for this error.
    pub fn into_response(self) -> (r: ErrorResponse)
        ensures
            answers(r, check_answer(self).0, check_answer(self).1),
    {
        match self {
            CheckError::MissingAuthorizationHeader => error_response(STATUS_UNAUTHORIZED, "missing Authorization header"),
            CheckError::MissingDpopProof => error_response(STATUS_BAD_REQUEST, "missing DPoP proof header"),
            CheckError::Session(_) => error_response(STATUS_UNAUTHORIZED, "invalid, expired, or unrecognized session"),
            CheckError::AuthorizationServiceUnreachable(_) => error_response(STATUS_INTERNAL_SERVER_ERROR, "internal error"),
        }
    }
}


impl CheckError {
    /// The error for a request missing a header it needs.
    pub fn missing(m: MissingHeader) -> (r: Self)
        ensures
            r == (match m {
                MissingHeader::Authorization => CheckError::MissingAuthorizationHeader,
                MissingHeader::Dpop => CheckError::MissingDpopProof,
            }),
    {
        match m {
            MissingHeader::Authorization => CheckError::MissingAuthorizationHeader,
            MissingHeader::Dpop => CheckError::MissingDpopProof,
        }
    }
}

} // verus!
