//! Administration of functions, groups, memberships and grants: which
//! document a grant lives in, and how a request is admitted and answered.

use vstd::prelude::*;

use crate::codec::{uuid_string, uuid_text};
use crate::response::{
    answers, error_response, ErrorResponse, STATUS_BAD_REQUEST, STATUS_FORBIDDEN,
    STATUS_INTERNAL_SERVER_ERROR, STATUS_UNAUTHORIZED,
};
use crate::session::{MissingHeader, SessionError};
use crate::store::{StoreError, UserId, COLLECTION_GROUPS, COLLECTION_USERS};

verus! {

broadcast use vstd::string::group_string_axioms;

/// Who a grant is for: a whole group, or one user.
#[derive(Debug)]
pub enum GrantTarget {
    Group(String),
    User(UserId),
}

#[derive(Debug)]
pub enum AdminError {
    MissingAuthorizationHeader,
    MissingDpopProof,
    Session(SessionError),
    /// The authorization service could not be reached or answered
    /// unreadably; what went wrong, as text.
    AuthorizationServiceUnreachable(String),
    Forbidden,
    BadRequest(String),
    Firestore(StoreError),
}

/// The message for a grant request naming both or neither target.
pub open spec fn target_required_message() -> Seq<char> {
    "exactly one of group_id or user_id is required"@
}

/// A grant request names exactly one of a group and a user.
pub fn parse_target(group_id: Option<String>, user_id: Option<UserId>) -> (r: Result<GrantTarget, AdminError>)
    ensures
        match (group_id, user_id) {
            (Some(g), None) => r matches Ok(GrantTarget::Group(h)) && h == g,
            (None, Some(u)) => r == Ok::<GrantTarget, AdminError>(GrantTarget::User(u)),
            _ => r matches Err(AdminError::BadRequest(m)) && m@ == target_required_message(),
        },
{
    match (group_id, user_id) {
        (Some(g), None) => Ok(GrantTarget::Group(g)),
        (None, Some(u)) => Ok(GrantTarget::User(u)),
        _ => Err(AdminError::BadRequest(String::from_str("exactly one of group_id or user_id is required"))),
    }
}

/// The collection (under `functions/{function_id}`) and document id of the
/// grant for `target`: `groups/{group_id}` or `users/{user_id}`.
pub open spec fn grant_location(target: GrantTarget) -> (Seq<char>, Seq<char>) {
    match target {
        GrantTarget::Group(g) => ("groups"@, g@),
        GrantTarget::User(u) => ("users"@, uuid_text(u.0)),
    }
}

/// Where the grant for `target` is stored.
pub fn grant_collection_and_id(target: &GrantTarget) -> (r: (&'static str, String))
    ensures
        (r.0@, r.1@) == grant_location(*target),
{
    match target {
        GrantTarget::Group(group_id) => (COLLECTION_GROUPS, group_id.clone()),
        GrantTarget::User(user_id) => (COLLECTION_USERS, uuid_string(user_id.0)),
    }
}

/// The function id that admin actions require a grant for.
pub const ADMIN_FUNCTION_ID: &'static str = "admin";

/// Admits an authenticated user to an admin action when the authorization
/// service granted their session the `admin` function.
pub fn admit_admin(user_id: UserId, authorized: bool) -> (r: Result<UserId, AdminError>)
    ensures
        authorized ==> r == Ok::<UserId, AdminError>(user_id),
        !authorized ==> r matches Err(AdminError::Forbidden),
{
    if !authorized {
        return Err(AdminError::Forbidden);
    }
    Ok(user_id)
}

/// The answer to an admin request that failed with `e`.
pub open spec fn admin_answer(e: AdminError) -> (u16, Seq<char>) {
    match e {
        AdminError::MissingAuthorizationHeader => (STATUS_UNAUTHORIZED, "missing Authorization header"@),
        AdminError::MissingDpopProof => (STATUS_BAD_REQUEST, "missing DPoP proof header"@),
        AdminError::Session(_) => (STATUS_UNAUTHORIZED, "invalid, expired, or unrecognized session"@),
        AdminError::AuthorizationServiceUnreachable(_) => (STATUS_INTERNAL_SERVER_ERROR, "internal error"@),
        AdminError::Forbidden => (STATUS_FORBIDDEN, "not authorized for the admin function"@),
        AdminError::BadRequest(m) => (STATUS_BAD_REQUEST, m@),
        AdminError::Firestore(_) => (STATUS_INTERNAL_SERVER_ERROR, "internal error"@),
    }
}

impl AdminError {
    /// The HTTP answer for this error.
    pub fn into_response(self) -> (r: ErrorResponse)
        ensures
            answers(r, admin_answer(self).0, admin_answer(self).1),
    {
        match self {
            AdminError::MissingAuthorizationHeader => error_response(STATUS_UNAUTHORIZED, "missing Authorization header"),
            AdminError::MissingDpopProof => error_response(STATUS_BAD_REQUEST, "missing DPoP proof header"),
            AdminError::Session(_) => error_response(STATUS_UNAUTHORIZED, "invalid, expired, or unrecognized session"),
            AdminError::AuthorizationServiceUnreachable(_) => error_response(STATUS_INTERNAL_SERVER_ERROR, "internal error"),
            AdminError::Forbidden => error_response(STATUS_FORBIDDEN, "not authorized for the admin function"),
            AdminError::BadRequest(m) => ErrorResponse { status: STATUS_BAD_REQUEST, message: m },
            AdminError::Firestore(_) => error_response(STATUS_INTERNAL_SERVER_ERROR, "internal error"),
        }
    }
}


impl AdminError {
    /// The error for a request missing a header it needs.
    pub fn missing(m: MissingHeader) -> (r: Self)
        ensures
            r == (match m {
                MissingHeader::Authorization => AdminError::MissingAuthorizationHeader,
                MissingHeader::Dpop => AdminError::MissingDpopProof,
            }),
    {
        match m {
            MissingHeader::Authorization => AdminError::MissingAuthorizationHeader,
            MissingHeader::Dpop => AdminError::MissingDpopProof,
        }
    }
}

} // verus!
