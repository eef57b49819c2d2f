//! Passkey registration: the pending-ceremony record, request validation,
//! and the service's error answers.

use vstd::prelude::*;

use crate::clock::{clock_reading, is_before, now, Timestamp, CLOCK_SECS_LIMIT};
use crate::dpop::already_exists_marker;
use crate::logon::normalized_username;
use crate::response::{
    answers, error_response, ErrorResponse, STATUS_BAD_REQUEST, STATUS_CONFLICT,
    STATUS_INTERNAL_SERVER_ERROR,
};
use crate::store::{StoreError, UserId};
use crate::text::{contains_str, occurs_in, to_lowercase, trim, trimmed};

verus! {

broadcast use vstd::string::group_string_axioms;

/// How long a registration ceremony may take from its start.
pub const REGISTRATION_SESSION_TTL_SECONDS: i64 = 5 * 60;

/// A started passkey registration ceremony, kept until it is finished.
/// `S` is the ceremony state the WebAuthn library needs to finish it.
#[derive(Debug)]
pub struct RegistrationSession<S> {
    pub state: S,
    pub user_id: UserId,
    pub username: String,
    pub display_name: String,
    pub expires_at: Timestamp,
}

impl<S> RegistrationSession<S> {
    /// A ceremony started at `started`.
    pub fn starting_at(state: S, user_id: UserId, username: String, display_name: String, started: Timestamp) -> (r: Self)
        requires
            started.secs + REGISTRATION_SESSION_TTL_SECONDS <= i64::MAX,
        ensures
            r.state == state,
            r.user_id == user_id,
            r.username == username,
            r.display_name == display_name,
            r.expires_at.secs == started.secs + REGISTRATION_SESSION_TTL_SECONDS,
            r.expires_at.nanos == started.nanos,
    {
        RegistrationSession {
            state,
            user_id,
            username,
            display_name,
            expires_at: started.plus_seconds(REGISTRATION_SESSION_TTL_SECONDS),
        }
    }

    /// A ceremony starting now: it expires
    /// `REGISTRATION_SESSION_TTL_SECONDS` after the current time.
    pub fn new(state: S, user_id: UserId, username: String, display_name: String) -> (r: Self)
        ensures
            r.state == state,
            r.user_id == user_id,
            r.username == username,
            r.display_name == display_name,
            REGISTRATION_SESSION_TTL_SECONDS <= r.expires_at.secs < CLOCK_SECS_LIMIT + REGISTRATION_SESSION_TTL_SECONDS,
            r.expires_at.nanos < 1_000_000_000,
    {
        let t = now();
        RegistrationSession::starting_at(state, user_id, username, display_name, t)
    }

    /// Whether the ceremony has expired at `at`: `at` is after its expiry.
    pub fn is_expired_at(&self, at: Timestamp) -> (r: bool)
        ensures
            r == is_before(self.expires_at, at),
            r == (self.expires_at.secs < at.secs || (self.expires_at.secs == at.secs && self.expires_at.nanos < at.nanos)),
    {
        self.expires_at.before(&at)
    }

    /// Whether the ceremony has expired at the current time.
    pub fn is_expired(&self) -> (r: bool)
        ensures
            exists|t: Timestamp| clock_reading(t) && r == #[trigger] is_before(self.expires_at, t),
    {
        let t = now();
        self.is_expired_at(t)
    }
}

#[derive(Debug)]
pub enum RegistrationError {
    UsernameTaken,
    SessionNotFound,
    SessionExpired,
    BadRequest(String),
    /// The WebAuthn ceremony failed; what went wrong, as text.
    Webauthn(String),
    Firestore(StoreError),
}

/// The message for a registration request missing a name.
pub open spec fn names_required_message() -> Seq<char> {
    "username and display_name are required"@
}

/// Normalized registration names must both be non-empty.
pub fn require_names(username: String, display_name: String) -> (r: Result<(String, String), RegistrationError>)
    ensures
        match r {
            Ok((u, d)) => u == username && d == display_name && u@.len() > 0 && d@.len() > 0,
            Err(e) => e matches RegistrationError::BadRequest(m) && m@ == names_required_message()
                && (username@.len() == 0 || display_name@.len() == 0),
        },
{
    if username.as_str().is_empty() || display_name.as_str().is_empty() {
        return Err(RegistrationError::BadRequest(String::from_str("username and display_name are required")));
    }
    Ok((username, display_name))
}

/// A registration request's names as they are stored: the username trimmed
/// and lowercased, the display name trimmed; neither may be empty then.
pub fn registration_names(username: &str, display_name: &str) -> (r: Result<(String, String), RegistrationError>)
    ensures
        match r {
            Ok((u, d)) => u@ == normalized_username(username@) && d@ == trimmed(display_name@)
                && u@.len() > 0 && d@.len() > 0,
            Err(e) => e matches RegistrationError::BadRequest(m) && m@ == names_required_message()
                && (normalized_username(username@).len() == 0 || trimmed(display_name@).len() == 0),
        },
{
    require_names(to_lowercase(trim(username)), String::from_str(trim(display_name)))
}

/// What finishing a ceremony finds at `at`: not found, expired (its expiry
/// is earlier than `at`), or the ceremony.
pub open spec fn pending_registration_outcome<S>(taken: Option<RegistrationSession<S>>, at: Timestamp) -> Result<RegistrationSession<S>, RegistrationError> {
    match taken {
        None => Err(RegistrationError::SessionNotFound),
        Some(s) => if is_before(s.expires_at, at) {
            Err(RegistrationError::SessionExpired)
        } else {
            Ok(s)
        },
    }
}

/// The ceremony a finish request names, if it was still pending and has
/// not expired at `at`.
pub fn pending_registration_at<S>(taken: Option<RegistrationSession<S>>, at: Timestamp) -> (r: Result<RegistrationSession<S>, RegistrationError>)
    ensures
        r == pending_registration_outcome(taken, at),
        taken is None ==> r matches Err(RegistrationError::SessionNotFound),
        taken matches Some(s) ==> ((s.expires_at.secs < at.secs || (s.expires_at.secs == at.secs && s.expires_at.nanos < at.nanos)) ==> r matches Err(RegistrationError::SessionExpired)),
        taken matches Some(s) ==> (!(s.expires_at.secs < at.secs || (s.expires_at.secs == at.secs && s.expires_at.nanos < at.nanos)) ==> r == Ok::<RegistrationSession<S>, RegistrationError>(s)),
{
    match taken {
        None => Err(RegistrationError::SessionNotFound),
        Some(session) => {
            if session.is_expired_at(at) {
                Err(RegistrationError::SessionExpired)
            } else {
                Ok(session)
            }
        },
    }
}

/// `pending_registration_at` at the current time (which reading it is, is not stated).
pub fn pending_registration<S>(taken: Option<RegistrationSession<S>>) -> (r: Result<RegistrationSession<S>, RegistrationError>)
    ensures
        exists|t: Timestamp| clock_reading(t) && r == #[trigger] pending_registration_outcome(taken, t),
{
    let t = now();
    pending_registration_at(taken, t)
}

/// The answer to a registration request that failed with `e`. A store
/// refusal to create an existing document is the username being taken by
/// a concurrent registration.
pub open spec fn registration_answer(e: RegistrationError) -> (u16, Seq<char>) {
    match e {
        RegistrationError::UsernameTaken => (STATUS_CONFLICT, "username already taken"@),
        RegistrationError::SessionNotFound => (STATUS_BAD_REQUEST, "unknown or already-used registration session"@),
        RegistrationError::SessionExpired => (STATUS_BAD_REQUEST, "registration session expired"@),
        RegistrationError::BadRequest(m) => (STATUS_BAD_REQUEST, m@),
        RegistrationError::Webauthn(_) => (STATUS_BAD_REQUEST, "registration ceremony failed"@),
        RegistrationError::Firestore(e) => if occurs_in(e.detail@, already_exists_marker()) {
            (STATUS_CONFLICT, "username already taken"@)
        } else {
            (STATUS_INTERNAL_SERVER_ERROR, "internal error"@)
        },
    }
}

impl RegistrationError {
    /// The HTTP answer for this error.
    pub fn into_response(self) -> (r: ErrorResponse)
        ensures
            answers(r, registration_answer(self).0, registration_answer(self).1),
    {
        match self {
            RegistrationError::UsernameTaken => error_response(STATUS_CONFLICT, "username already taken"),
            RegistrationError::SessionNotFound => error_response(STATUS_BAD_REQUEST, "unknown or already-used registration session"),
            RegistrationError::SessionExpired => error_response(STATUS_BAD_REQUEST, "registration session expired"),
            RegistrationError::BadRequest(m) => ErrorResponse { status: STATUS_BAD_REQUEST, message: m },
            RegistrationError::Webauthn(_) => error_response(STATUS_BAD_REQUEST, "registration ceremony failed"),
            RegistrationError::Firestore(e) => {
                proof {
                    reveal_strlit("AlreadyExists");
                    assert("AlreadyExists"@ =~= already_exists_marker());
                }
                if contains_str(e.detail.as_str(), "AlreadyExists") {
                    error_response(STATUS_CONFLICT, "username already taken")
                } else {
                    error_response(STATUS_INTERNAL_SERVER_ERROR, "internal error")
                }
            },
        }
    }
}


/// A pending ceremony is refused as expired exactly when the finishing
/// instant is after its expiry, and otherwise handed back unchanged: for a
/// ceremony started at `start`, finishing at any instant from `start` up to
/// its expiry `REGISTRATION_SESSION_TTL_SECONDS` later finds it pending.
pub proof fn law_registration_window<S>(s: RegistrationSession<S>, start: Timestamp, at: Timestamp)
    ensures
        pending_registration_outcome(Some(s), at) matches Err(RegistrationError::SessionExpired) <==> (s.expires_at.secs < at.secs || (s.expires_at.secs == at.secs && s.expires_at.nanos < at.nanos)),
        !(s.expires_at.secs < at.secs || (s.expires_at.secs == at.secs && s.expires_at.nanos < at.nanos)) ==> pending_registration_outcome(Some(s), at) == Ok::<RegistrationSession<S>, RegistrationError>(s),
        pending_registration_outcome(None::<RegistrationSession<S>>, at) matches Err(RegistrationError::SessionNotFound),
        (s.expires_at.secs == start.secs + REGISTRATION_SESSION_TTL_SECONDS && s.expires_at.nanos == start.nanos
            && start.secs <= at.secs && at.secs < s.expires_at.secs)
            ==> pending_registration_outcome(Some(s), at) == Ok::<RegistrationSession<S>, RegistrationError>(s),
{
}

} // verus!
