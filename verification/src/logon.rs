//! Passkey logon: the pending-ceremony record, request validation, and the
//! service's error answers.

use vstd::prelude::*;

use crate::clock::{clock_reading, is_before, now, Timestamp, CLOCK_SECS_LIMIT};
use crate::codec::{base64url, base64url_text, lemma_base64url_text};
use crate::codec::is_base64url_char;
use crate::dpop::{DpopError, VerifiedProof};
use crate::response::{
    answers, error_response, ErrorResponse, STATUS_BAD_REQUEST, STATUS_INTERNAL_SERVER_ERROR,
    STATUS_NOT_FOUND, STATUS_UNAUTHORIZED,
};
use crate::session::{mint_session, spec_hash_token, MintedSession, SESSION_TTL_SECONDS};
use crate::store::{StoreError, UserId};
use crate::text::{spec_to_lowercase, to_lowercase, trim, trimmed};

verus! {

broadcast use vstd::string::group_string_axioms;

/// How long a logon ceremony may take from its start.
pub const AUTHENTICATION_SESSION_TTL_SECONDS: i64 = 5 * 60;

/// A started passkey authentication ceremony, kept until it is finished.
/// `S` is the ceremony state the WebAuthn library needs to finish it.
#[derive(Debug)]
pub struct AuthenticationSession<S> {
    pub state: S,
    pub user_id: UserId,
    pub expires_at: Timestamp,
}

impl<S> AuthenticationSession<S> {
    /// A ceremony for `user_id` started at `started`.
    pub fn starting_at(state: S, user_id: UserId, started: Timestamp) -> (r: Self)
        requires
            started.secs + AUTHENTICATION_SESSION_TTL_SECONDS <= i64::MAX,
        ensures
            r.state == state,
            r.user_id == user_id,
            r.expires_at.secs == started.secs + AUTHENTICATION_SESSION_TTL_SECONDS,
            r.expires_at.nanos == started.nanos,
    {
        AuthenticationSession {
            state,
            user_id,
            expires_at: started.plus_seconds(AUTHENTICATION_SESSION_TTL_SECONDS),
        }
    }

    /// A ceremony for `user_id` starting now: it expires
    /// `AUTHENTICATION_SESSION_TTL_SECONDS` after the current time.
    pub fn new(state: S, user_id: UserId) -> (r: Self)
        ensures
            r.state == state,
            r.user_id == user_id,
            AUTHENTICATION_SESSION_TTL_SECONDS <= r.expires_at.secs < CLOCK_SECS_LIMIT + AUTHENTICATION_SESSION_TTL_SECONDS,
            r.expires_at.nanos < 1_000_000_000,
    {
        let t = now();
        AuthenticationSession::starting_at(state, user_id, t)
    }

    /// Whether the ceremony has expired at `at`: `at` is after its expiry.
    pub fn is_expired_at(&self, at: Timestamp) -> (r: bool)
        ensures
            r == is_before(self.expires_at, at),
            r == (self.expires_at.secs < at.secs || (self.expires_at.secs == at.secs && self.expires_at.nanos < at.nanos)),
    {
        self.expires_at.before(&at)
    }

    /// Whether the ceremony has expired at the current time.
    pub fn is_expired(&self) -> (r: bool)
        ensures
            exists|t: Timestamp| clock_reading(t) && r == #[trigger] is_before(self.expires_at, t),
    {
        let t = now();
        self.is_expired_at(t)
    }
}

/// A credential id as it names its document: unpadded URL-safe base64.
pub fn encode_credential_id(id: &[u8]) -> (r: String)
    ensures
        r@ == base64url_text(id@),
        r@.len() == (4 * id@.len() + 2) / 3,
{
    proof {
        lemma_base64url_text(id@);
    }
    base64url(id)
}

#[derive(Debug)]
pub enum LogonError {
    UnknownUsername,
    NoCredentials,
    SessionNotFound,
    SessionExpired,
    BadRequest(String),
    /// The WebAuthn ceremony failed; what went wrong, as text.
    Webauthn(String),
    /// The finish request carried no DPoP proof to bind the session to.
    MissingDpopProof,
    /// The finish request's DPoP proof was refused.
    Dpop(DpopError),
    Firestore(StoreError),
}

/// The username as accounts are keyed: trimmed and lowercased.
pub open spec fn normalized_username(raw: Seq<char>) -> Seq<char> {
    spec_to_lowercase(trimmed(raw))
}

/// A normalized username must not be empty.
pub fn require_username(normalized: String) -> (r: Result<String, LogonError>)
    ensures
        match r {
            Ok(u) => u == normalized && u@.len() > 0,
            Err(e) => e matches LogonError::BadRequest(m) && m@ == "username is required"@ && normalized@.len() == 0,
        },
{
    if normalized.as_str().is_empty() {
        return Err(LogonError::BadRequest(String::from_str("username is required")));
    }
    Ok(normalized)
}

/// A username as it is looked up: trimmed and lowercased; it must not be
/// empty then.
pub fn logon_username(raw: &str) -> (r: Result<String, LogonError>)
    ensures
        match r {
            Ok(u) => u@ == normalized_username(raw@) && u@.len() > 0,
            Err(e) => e matches LogonError::BadRequest(m) && m@ == "username is required"@
                && normalized_username(raw@).len() == 0,
        },
{
    require_username(to_lowercase(trim(raw)))
}

/// What finishing a ceremony finds at `at`: not found, expired (its expiry
/// is earlier than `at`), or the ceremony.
pub open spec fn pending_ceremony_outcome<S>(taken: Option<AuthenticationSession<S>>, at: Timestamp) -> Result<AuthenticationSession<S>, LogonError> {
    match taken {
        None => Err(LogonError::SessionNotFound),
        Some(s) => if is_before(s.expires_at, at) {
            Err(LogonError::SessionExpired)
        } else {
            Ok(s)
        },
    }
}

/// The ceremony a finish request names, if it was still pending and has
/// not expired at `at`.
pub fn pending_ceremony_at<S>(taken: Option<AuthenticationSession<S>>, at: Timestamp) -> (r: Result<AuthenticationSession<S>, LogonError>)
    ensures
        r == pending_ceremony_outcome(taken, at),
        taken is None ==> r matches Err(LogonError::SessionNotFound),
        taken matches Some(s) ==> ((s.expires_at.secs < at.secs || (s.expires_at.secs == at.secs && s.expires_at.nanos < at.nanos)) ==> r matches Err(LogonError::SessionExpired)),
        taken matches Some(s) ==> (!(s.expires_at.secs < at.secs || (s.expires_at.secs == at.secs && s.expires_at.nanos < at.nanos)) ==> r == Ok::<AuthenticationSession<S>, LogonError>(s)),
{
    match taken {
        None => Err(LogonError::SessionNotFound),
        Some(session) => {
            if session.is_expired_at(at) {
                Err(LogonError::SessionExpired)
            } else {
                Ok(session)
            }
        },
    }
}

/// `pending_ceremony_at` at the current time (which reading it is, is not stated).
pub fn pending_ceremony<S>(taken: Option<AuthenticationSession<S>>) -> (r: Result<AuthenticationSession<S>, LogonError>)
    ensures
        exists|t: Timestamp| clock_reading(t) && r == #[trigger] pending_ceremony_outcome(taken, t),
{
    let t = now();
    pending_ceremony_at(taken, t)
}

/// The `DPoP` header a logon finish request must carry, to bind the
/// session it issues to the proof's key.
pub fn require_dpop_proof(dpop: Option<&str>) -> (r: Result<&str, LogonError>)
    ensures
        match dpop {
            Some(d) => r == Ok::<&str, LogonError>(d),
            None => r matches Err(LogonError::MissingDpopProof),
        },
{
    match dpop {
        Some(d) => Ok(d),
        None => Err(LogonError::MissingDpopProof),
    }
}

/// The session a finished logon issues: for the user the ceremony
/// authenticated, bound to the key that signed the finish request's DPoP
/// proof, so that only the holder of that key can use its token. Its
/// token is fresh (32 random bytes, base64url) and it expires
/// `SESSION_TTL_SECONDS` after the current time.
pub fn logon_session(user_id: UserId, proof: &VerifiedProof) -> (r: MintedSession)
    ensures
        r.session.user_id == user_id,
        r.session.jkt@ == proof.jkt@,
        exists|bytes: Seq<u8>| bytes.len() == 32 && r.token@ == base64url_text(bytes),
        r.token@.len() == 43,
        forall|i: int| 0 <= i < r.token@.len() ==> is_base64url_char(#[trigger] r.token@[i]),
        r.token_hash@ == spec_hash_token(r.token@),
        SESSION_TTL_SECONDS <= r.session.expires_at.secs < CLOCK_SECS_LIMIT + SESSION_TTL_SECONDS,
        r.session.expires_at.nanos < 1_000_000_000,
        clock_reading(r.issued_at),
        r.session.expires_at.secs == r.issued_at.secs + SESSION_TTL_SECONDS,
        r.session.expires_at.nanos == r.issued_at.nanos,
{
    mint_session(user_id, proof.jkt.as_str())
}

/// The answer to a logon request that failed with `e`.
pub open spec fn logon_answer(e: LogonError) -> (u16, Seq<char>) {
    match e {
        LogonError::UnknownUsername => (STATUS_NOT_FOUND, "unknown username"@),
        LogonError::NoCredentials => (STATUS_INTERNAL_SERVER_ERROR, "no credentials on file for this user"@),
        LogonError::SessionNotFound => (STATUS_BAD_REQUEST, "unknown or already-used logon session"@),
        LogonError::SessionExpired => (STATUS_BAD_REQUEST, "logon session expired"@),
        LogonError::BadRequest(m) => (STATUS_BAD_REQUEST, m@),
        LogonError::Webauthn(_) => (STATUS_BAD_REQUEST, "logon ceremony failed"@),
        LogonError::MissingDpopProof => (STATUS_BAD_REQUEST, "missing DPoP proof header"@),
        LogonError::Dpop(_) => (STATUS_UNAUTHORIZED, "invalid DPoP proof"@),
        LogonError::Firestore(_) => (STATUS_INTERNAL_SERVER_ERROR, "internal error"@),
    }
}

impl LogonError {
    /// The HTTP answer for this error.
    pub fn into_response(self) -> (r: ErrorResponse)
        ensures
            answers(r, logon_answer(self).0, logon_answer(self).1),
    {
        match self {
            LogonError::UnknownUsername => error_response(STATUS_NOT_FOUND, "unknown username"),
            LogonError::NoCredentials => error_response(STATUS_INTERNAL_SERVER_ERROR, "no credentials on file for this user"),
            LogonError::SessionNotFound => error_response(STATUS_BAD_REQUEST, "unknown or already-used logon session"),
            LogonError::SessionExpired => error_response(STATUS_BAD_REQUEST, "logon session expired"),
            LogonError::BadRequest(m) => ErrorResponse { status: STATUS_BAD_REQUEST, message: m },
            LogonError::Webauthn(_) => error_response(STATUS_BAD_REQUEST, "logon ceremony failed"),
            LogonError::MissingDpopProof => error_response(STATUS_BAD_REQUEST, "missing DPoP proof header"),
            LogonError::Dpop(_) => error_response(STATUS_UNAUTHORIZED, "invalid DPoP proof"),
            LogonError::Firestore(_) => error_response(STATUS_INTERNAL_SERVER_ERROR, "internal error"),
        }
    }
}

/// A ceremony started at `t` can be finished until its expiry and not after
/// it: it is pending at its start and at any instant up to
/// `AUTHENTICATION_SESSION_TTL_SECONDS` later, and expired any whole second
/// after that.
pub proof fn law_ceremony_window<S>(state: S, user_id: UserId, t: Timestamp, at: Timestamp)
    requires
        clock_reading(t),
    ensures
        ({
            let s = AuthenticationSession { state, user_id, expires_at: Timestamp { secs: (t.secs + AUTHENTICATION_SESSION_TTL_SECONDS) as i64, nanos: t.nanos } };
            &&& pending_ceremony_outcome(Some(s), t) is Ok
            &&& (t.secs <= at.secs < t.secs + AUTHENTICATION_SESSION_TTL_SECONDS ==> pending_ceremony_outcome(Some(s), at) is Ok)
            &&& (at.secs > t.secs + AUTHENTICATION_SESSION_TTL_SECONDS ==> pending_ceremony_outcome(Some(s), at) matches Err(LogonError::SessionExpired))
        }),
{
}


/// A pending ceremony is refused as expired exactly when the finishing
/// instant is after its expiry, and otherwise handed back unchanged: for a
/// ceremony started at `start`, finishing at any instant from `start` up to
/// its expiry `AUTHENTICATION_SESSION_TTL_SECONDS` later finds it pending.
pub proof fn law_pending_ceremony_expiry<S>(s: AuthenticationSession<S>, start: Timestamp, at: Timestamp)
    ensures
        pending_ceremony_outcome(Some(s), at) matches Err(LogonError::SessionExpired) <==> (s.expires_at.secs < at.secs || (s.expires_at.secs == at.secs && s.expires_at.nanos < at.nanos)),
        !(s.expires_at.secs < at.secs || (s.expires_at.secs == at.secs && s.expires_at.nanos < at.nanos)) ==> pending_ceremony_outcome(Some(s), at) == Ok::<AuthenticationSession<S>, LogonError>(s),
        pending_ceremony_outcome(None::<AuthenticationSession<S>>, at) matches Err(LogonError::SessionNotFound),
        (s.expires_at.secs == start.secs + AUTHENTICATION_SESSION_TTL_SECONDS && s.expires_at.nanos == start.nanos
            && start.secs <= at.secs && at.secs < s.expires_at.secs)
            ==> pending_ceremony_outcome(Some(s), at) == Ok::<AuthenticationSession<S>, LogonError>(s),
{
}

} // verus!
