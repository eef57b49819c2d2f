//! Logout: the service's error answers.

use vstd::prelude::*;

use crate::response::{
    answers, error_response, ErrorResponse, STATUS_BAD_REQUEST, STATUS_INTERNAL_SERVER_ERROR,
    STATUS_UNAUTHORIZED,
};
use crate::session::{MissingHeader, SessionError};
use crate::store::StoreError;

verus! {

#[derive(Debug)]
pub enum LogoutError {
    MissingAuthorizationHeader,
    MissingDpopProof,
    Session(SessionError),
    Firestore(StoreError),
}

/// The answer to a logout request that failed with `e`.
pub open spec fn logout_answer(e: LogoutError) -> (u16, Seq<char>) {
    match e {
        LogoutError::MissingAuthorizationHeader => (STATUS_UNAUTHORIZED, "missing Authorization header"@),
        LogoutError::MissingDpopProof => (STATUS_BAD_REQUEST, "missing DPoP proof header"@),
        LogoutError::Session(_) => (STATUS_UNAUTHORIZED, "invalid, expired, or unrecognized session"@),
        LogoutError::Firestore(_) => (STATUS_INTERNAL_SERVER_ERROR, "internal error"@),
    }
}

impl LogoutError {
    /// The HTTP answer for this error.
    pub fn into_response(self) -> (r: ErrorResponse)
        ensures
            answers(r, logout_answer(self).0, logout_answer(self).1),
    {
        match self {
            LogoutError::MissingAuthorizationHeader => error_response(STATUS_UNAUTHORIZED, "missing Authorization header"),
            LogoutError::MissingDpopProof => error_response(STATUS_BAD_REQUEST, "missing DPoP proof header"),
            LogoutError::Session(_) => error_response(STATUS_UNAUTHORIZED, "invalid, expired, or unrecognized session"),
            LogoutError::Firestore(_) => error_response(STATUS_INTERNAL_SERVER_ERROR, "internal error"),
        }
    }
}


impl LogoutError {
    /// The error for a request missing a header it needs.
    pub fn missing(m: MissingHeader) -> (r: Self)
        ensures
            r == (match m {
                MissingHeader::Authorization => LogoutError::MissingAuthorizationHeader,
                MissingHeader::Dpop => LogoutError::MissingDpopProof,
            }),
    {
        match m {
            MissingHeader::Authorization => LogoutError::MissingAuthorizationHeader,
            MissingHeader::Dpop => LogoutError::MissingDpopProof,
        }
    }
}

} // verus!
