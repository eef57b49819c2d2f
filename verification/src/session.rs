//! Sessions: opaque bearer tokens bound at logon to a DPoP key, stored
//! under a hash of the token.

use vstd::prelude::*;

use crate::clock::{clock_reading, is_before, now, Timestamp, CLOCK_SECS_LIMIT};
use crate::codec::{base64url, base64url_text, is_base64url_char, lemma_base64url_text, sha256, spec_sha256};
use crate::dpop::{DpopError, VerifiedProof};
use crate::store::{StoreError, UserId};
use crate::text::char_vec;

verus! {

broadcast use vstd::string::group_string_axioms;

/// How long a session lasts from logon.
pub const SESSION_TTL_SECONDS: i64 = 15 * 60;

/// Document stored at `sessions/{hash_token(token)}`.
#[derive(Debug)]
pub struct Session {
    pub user_id: UserId,
    pub jkt: String,
    pub expires_at: Timestamp,
}

#[derive(Debug)]
pub struct AuthenticatedSession {
    pub user_id: UserId,
    pub token: String,
    pub token_hash: String,
}

#[derive(Debug)]
pub enum SessionError {
    InvalidAuthorizationScheme,
    SessionNotFound,
    SessionExpired,
    /// The DPoP proof was well-formed and correctly signed, but by a
    /// different key than the one bound to this session at logon — this is
    /// the actual point of DPoP: a stolen token alone isn't enough.
    KeyMismatch,
    Dpop(DpopError),
    Firestore(StoreError),
}

/// The id of the session document for `token`.
pub open spec fn spec_hash_token(token: Seq<char>) -> Seq<char> {
    base64url_text(spec_sha256(vstd::utf8::encode_utf8(token)))
}

/// Doc IDs in `sessions` are a hash of the opaque token, not the token
/// itself, so a store read/leak doesn't hand out live bearer-equivalent
/// secrets.
pub fn hash_token(token: &str) -> (r: String)
    ensures
        r@ == spec_hash_token(token@),
        r@.len() == 43,
        forall|i: int| 0 <= i < r@.len() ==> is_base64url_char(#[trigger] r@[i]),
{
    let digest = sha256(token.as_bytes());
    proof {
        lemma_base64url_text(digest@);
    }
    base64url(digest.as_slice())
}

/// ASCII case folding of one character.
pub open spec fn ascii_lower(c: char) -> u32 {
    if 65 <= c as u32 <= 90 {
        (c as u32 + 32) as u32
    } else {
        c as u32
    }
}

/// `a` and `b` are equal ignoring ASCII case.
pub open spec fn eq_ignore_ascii_case(a: Seq<char>, b: Seq<char>) -> bool {
    a.len() == b.len() && forall|i: int| 0 <= i < a.len() ==> ascii_lower(a[i]) == ascii_lower(b[i])
}

/// The authorization scheme DPoP-bound tokens are presented with.
pub open spec fn dpop_scheme() -> Seq<char> {
    seq!['D', 'P', 'o', 'P']
}

/// `p` is the position of the first space in `h`.
pub open spec fn is_first_space(h: Seq<char>, p: int) -> bool {
    0 <= p < h.len() && h[p] == ' ' && forall|q: int| 0 <= q < p ==> h[q] != ' '
}

/// The token an `Authorization` header value presents: the value splits at
/// its first space into a scheme, which must be `DPoP` in any ASCII case,
/// and a token, which must not be empty.
pub open spec fn authorization_token(h: Seq<char>) -> Option<Seq<char>> {
    if exists|p: int| is_first_space(h, p) {
        let p = choose|p: int| is_first_space(h, p);
        let token = h.subrange(p + 1, h.len() as int);
        if token.len() > 0 && eq_ignore_ascii_case(h.subrange(0, p), dpop_scheme()) {
            Some(token)
        } else {
            None
        }
    } else {
        None
    }
}

/// There is at most one first space.
proof fn lemma_first_space_unique(h: Seq<char>, p: int, q: int)
    requires
        is_first_space(h, p),
        is_first_space(h, q),
    ensures
        p == q,
{
    if p < q {
        assert(h[p] != ' ');
    } else if q < p {
        assert(h[q] != ' ');
    }
}

/// `c` folds to the ASCII letter `lower` (given in lower case).
fn folds_to(c: char, lower: char, upper: char) -> (r: bool)
    requires
        97 <= lower as u32 <= 122,
        upper as u32 == lower as u32 - 32,
    ensures
        r == (ascii_lower(c) == ascii_lower(lower)),
{
    c == lower || c == upper
}

/// Parses an `Authorization: DPoP <token>` header value (RFC 9449).
pub fn parse_dpop_authorization(header: &str) -> (r: Result<&str, SessionError>)
    ensures
        match r {
            Ok(token) => authorization_token(header@) == Some(token@),
            Err(e) => e is InvalidAuthorizationScheme && authorization_token(header@) is None,
        },
{
    let chars = char_vec(header);
    let n = chars.len();
    let mut p: usize = 0;
    while p < n && chars[p] != ' '
        invariant
            chars@ == header@,
            n == chars@.len(),
            p <= n,
            forall|q: int| 0 <= q < p ==> chars@[q] != ' ',
        decreases n - p,
    {
        p = p + 1;
    }
    if p == n {
        assert(!exists|q: int| is_first_space(header@, q));
        return Err(SessionError::InvalidAuthorizationScheme);
    }
    proof {
        assert(is_first_space(header@, p as int));
        let c = choose|q: int| is_first_space(header@, q);
        lemma_first_space_unique(header@, p as int, c);
    }
    if p + 1 == n {
        return Err(SessionError::InvalidAuthorizationScheme);
    }
    let scheme_ok = p == 4 && folds_to(chars[0], 'd', 'D') && folds_to(chars[1], 'p', 'P')
        && folds_to(chars[2], 'o', 'O') && folds_to(chars[3], 'p', 'P');
    proof {
        let s = header@.subrange(0, p as int);
        if p == 4 {
            assert(s[0] == chars@[0] && s[1] == chars@[1] && s[2] == chars@[2] && s[3] == chars@[3]);
            assert(ascii_lower('D') == ascii_lower('d') && ascii_lower('P') == ascii_lower('p')
                && ascii_lower('o') == ascii_lower('O'));
            if eq_ignore_ascii_case(s, dpop_scheme()) {
                assert(ascii_lower(s[0]) == ascii_lower(dpop_scheme()[0]));
                assert(ascii_lower(s[1]) == ascii_lower(dpop_scheme()[1]));
                assert(ascii_lower(s[2]) == ascii_lower(dpop_scheme()[2]));
                assert(ascii_lower(s[3]) == ascii_lower(dpop_scheme()[3]));
            }
            if scheme_ok {
                assert forall|i: int| 0 <= i < 4 implies ascii_lower(s[i]) == ascii_lower(dpop_scheme()[i]) by {
                    if i == 0 {} else if i == 1 {} else if i == 2 {} else {}
                }
            }
        }
        assert(scheme_ok == eq_ignore_ascii_case(s, dpop_scheme()));
    }
    if !scheme_ok {
        return Err(SessionError::InvalidAuthorizationScheme);
    }
    Ok(header.substring_char(p + 1, n))
}

/// What loading a session gives at `now`: not found, expired (its expiry
/// is earlier than `now`), or the session.
pub open spec fn active_session_outcome(found: Option<Session>, now: Timestamp) -> Result<Session, SessionError> {
    match found {
        None => Err(SessionError::SessionNotFound),
        Some(s) => if is_before(s.expires_at, now) {
            Err(SessionError::SessionExpired)
        } else {
            Ok(s)
        },
    }
}

/// A stored session is active at `now` when it is found and has not
/// expired: its expiry is not earlier than `now`.
pub fn check_active_session(found: Option<Session>, now: Timestamp) -> (r: Result<Session, SessionError>)
    ensures
        r == active_session_outcome(found, now),
        found is None ==> r matches Err(SessionError::SessionNotFound),
        found matches Some(x) ==> ((x.expires_at.secs < now.secs || (x.expires_at.secs == now.secs && x.expires_at.nanos < now.nanos)) ==> r matches Err(SessionError::SessionExpired)),
        found matches Some(x) ==> (!(x.expires_at.secs < now.secs || (x.expires_at.secs == now.secs && x.expires_at.nanos < now.nanos)) ==> r == Ok::<Session, SessionError>(x)),
{
    match found {
        None => Err(SessionError::SessionNotFound),
        Some(session) => {
            if session.expires_at.before(&now) {
                Err(SessionError::SessionExpired)
            } else {
                Ok(session)
            }
        },
    }
}

/// `check_active_session` at the current time. The clock's reading is not
/// stated; the result is `check_active_session`'s at some reading.
pub fn check_active_session_now(found: Option<Session>) -> (r: Result<Session, SessionError>)
    ensures
        exists|t: Timestamp| clock_reading(t) && r == #[trigger] active_session_outcome(found, t),
{
    let t = now();
    check_active_session(found, t)
}

/// Binds a verified proof to the session its token named: the proof's key
/// must be the one the session was bound to at logon.
pub fn bind_proof(token: &str, session: Session, proof: VerifiedProof) -> (r: Result<AuthenticatedSession, SessionError>)
    ensures
        match r {
            Ok(a) => proof.jkt@ == session.jkt@ && a.user_id == session.user_id && a.token@ == token@
                && a.token_hash@ == spec_hash_token(token@),
            Err(e) => e is KeyMismatch && proof.jkt@ != session.jkt@,
        },
{
    if proof.jkt != session.jkt {
        return Err(SessionError::KeyMismatch);
    }
    Ok(AuthenticatedSession {
        user_id: session.user_id,
        token: String::from_str(token),
        token_hash: hash_token(token),
    })
}

/// Which of the headers a DPoP-authenticated request needs is missing.
#[derive(Clone, Copy, Debug, PartialEq, Eq, Structural)]
pub enum MissingHeader {
    Authorization,
    Dpop,
}

/// The `Authorization` and `DPoP` header values a request must carry
/// before anything is read for it; a missing `Authorization` header is
/// reported first.
pub fn dpop_request_headers<'a>(authorization: Option<&'a str>, dpop: Option<&'a str>) -> (r: Result<(&'a str, &'a str), MissingHeader>)
    ensures
        match (authorization, dpop) {
            (None, _) => r == Err::<(&str, &str), MissingHeader>(MissingHeader::Authorization),
            (Some(_), None) => r == Err::<(&str, &str), MissingHeader>(MissingHeader::Dpop),
            (Some(a), Some(d)) => r == Ok::<(&str, &str), MissingHeader>((a, d)),
        },
{
    match (authorization, dpop) {
        (None, _) => Err(MissingHeader::Authorization),
        (Some(_), None) => Err(MissingHeader::Dpop),
        (Some(a), Some(d)) => Ok((a, d)),
    }
}

/// Where authenticating a request stands. The header is read first, then
/// the session it names is loaded, and only for an active session is the
/// request's DPoP proof verified (which records its `jti`), so a request
/// that fails earlier spends no proof.
#[derive(Debug)]
pub enum Authentication {
    /// The session document `token_hash` is to be loaded.
    LoadSession { token: String, token_hash: String },
    /// The request's proof is to be verified; `session` is the active
    /// session the token names.
    VerifyProof { token: String, session: Session },
    /// Authentication is over, with this answer.
    Finished(Result<AuthenticatedSession, SessionError>),
}

/// What the caller reports back after doing what the state asked.
#[derive(Debug)]
pub enum AuthenticationEvent {
    /// The session document was read: found, absent, or the store failed.
    SessionLoaded(Result<Option<Session>, StoreError>),
    /// The request's proof was verified, or refused.
    ProofVerified(Result<VerifiedProof, DpopError>),
}

/// `a` is the session `token` authenticates as, under `session`.
pub open spec fn authenticated_as(a: AuthenticatedSession, token: Seq<char>, session: Session) -> bool {
    &&& a.user_id == session.user_id
    &&& a.token@ == token
    &&& a.token_hash@ == spec_hash_token(token)
}

/// `next` is what authentication moves to from `state` on `event` at `now`:
/// a store failure or an inactive session ends it before any proof is
/// verified; a refused proof ends it; a verified proof ends it, accepted
/// exactly when the proof's key is the session's. An event the state did
/// not ask for changes nothing.
pub open spec fn authentication_step(
    state: Authentication,
    event: AuthenticationEvent,
    now: Timestamp,
    next: Authentication,
) -> bool {
    match (state, event) {
        (Authentication::LoadSession { token, .. }, AuthenticationEvent::SessionLoaded(loaded)) => match loaded {
            Err(e) => next == Authentication::Finished(Err(SessionError::Firestore(e))),
            Ok(found) => match active_session_outcome(found, now) {
                Err(e) => next == Authentication::Finished(Err(e)),
                Ok(session) => next matches Authentication::VerifyProof { token: t, session: s }
                    && t@ == token@ && s == session,
            },
        },
        (Authentication::VerifyProof { token, session }, AuthenticationEvent::ProofVerified(verified)) => match verified {
            Err(e) => next == Authentication::Finished(Err(SessionError::Dpop(e))),
            Ok(p) => if p.jkt@ == session.jkt@ {
                next matches Authentication::Finished(Ok(a)) && authenticated_as(a, token@, session)
            } else {
                next == Authentication::Finished(Err(SessionError::KeyMismatch))
            },
        },
        _ => next == state,
    }
}

/// Starts authenticating a request from its `Authorization` header: a
/// malformed header ends it, else the session its token names is to be
/// loaded.
pub fn start_authentication(authorization_header: &str) -> (r: Authentication)
    ensures
        match authorization_token(authorization_header@) {
            None => r == Authentication::Finished(Err(SessionError::InvalidAuthorizationScheme)),
            Some(t) => r matches Authentication::LoadSession { token, token_hash }
                && token@ == t && token_hash@ == spec_hash_token(t),
        },
{
    match parse_dpop_authorization(authorization_header) {
        Err(e) => Authentication::Finished(Err(e)),
        Ok(token) => Authentication::LoadSession { token: String::from_str(token), token_hash: hash_token(token) },
    }
}

/// Moves authentication on by what the caller reports, at time `now`.
pub fn advance_authentication(state: Authentication, event: AuthenticationEvent, now: Timestamp) -> (r: Authentication)
    ensures
        authentication_step(state, event, now, r),
{
    match state {
        Authentication::LoadSession { token, token_hash } => match event {
            AuthenticationEvent::SessionLoaded(Err(e)) => Authentication::Finished(Err(SessionError::Firestore(e))),
            AuthenticationEvent::SessionLoaded(Ok(found)) => match check_active_session(found, now) {
                Err(e) => Authentication::Finished(Err(e)),
                Ok(session) => Authentication::VerifyProof { token, session },
            },
            _ => Authentication::LoadSession { token, token_hash },
        },
        Authentication::VerifyProof { token, session } => match event {
            AuthenticationEvent::ProofVerified(Err(e)) => Authentication::Finished(Err(SessionError::Dpop(e))),
            AuthenticationEvent::ProofVerified(Ok(p)) => Authentication::Finished(bind_proof(token.as_str(), session, p)),
            _ => Authentication::VerifyProof { token, session },
        },
        Authentication::Finished(r) => Authentication::Finished(r),
    }
}

/// `advance_authentication` at the current time. The clock's reading is
/// not stated; the step is `authentication_step` at some reading.
pub fn advance_authentication_now(state: Authentication, event: AuthenticationEvent) -> (r: Authentication)
    ensures
        exists|t: Timestamp| clock_reading(t) && #[trigger] authentication_step(state, event, t, r),
{
    let t = now();
    advance_authentication(state, event, t)
}

/// No proof is asked for before the session is known to be active: a step
/// that newly reaches proof verification loaded, at that step's time, a
/// session that exists and has not expired.
pub proof fn law_proof_only_for_active_session(
    state: Authentication,
    event: AuthenticationEvent,
    now: Timestamp,
    next: Authentication,
)
    requires
        authentication_step(state, event, now, next),
        next is VerifyProof,
        !(state is VerifyProof),
    ensures
        state is LoadSession,
        event matches AuthenticationEvent::SessionLoaded(Ok(Some(s))) && !is_before(s.expires_at, now),
{
}

/// A token alone is not enough: a step that newly authenticates a request
/// does so on a verified proof whose key is the one the session was bound
/// to, and for that session's user.
pub proof fn law_authenticated_only_by_the_bound_key(
    state: Authentication,
    event: AuthenticationEvent,
    now: Timestamp,
    next: Authentication,
)
    requires
        authentication_step(state, event, now, next),
        next matches Authentication::Finished(Ok(_)),
        !(state is Finished),
    ensures
        state matches Authentication::VerifyProof { token, session } && (
            event matches AuthenticationEvent::ProofVerified(Ok(p)) && (
                p.jkt@ == session.jkt@
                && (next matches Authentication::Finished(Ok(a)) && authenticated_as(a, token@, session)))),
{
}

/// A session bound to the key `jkt` at logon authenticates a request whose
/// proof verified exactly when the proof's key is `jkt`; any other key is
/// refused as a key mismatch.
pub proof fn law_bound_session_needs_its_key(
    token: String,
    session: Session,
    p: VerifiedProof,
    now: Timestamp,
    next: Authentication,
)
    requires
        authentication_step(
            Authentication::VerifyProof { token, session },
            AuthenticationEvent::ProofVerified(Ok(p)),
            now,
            next,
        ),
    ensures
        next matches Authentication::Finished(Ok(_)) <==> p.jkt@ == session.jkt@,
        p.jkt@ != session.jkt@ ==> next == Authentication::Finished(Err(SessionError::KeyMismatch)),
{
}

/// A stored session is active at `now` exactly when it is found and its
/// expiry is not earlier than `now`: a missing session is not found, one
/// whose expiry is before `now` has expired, and an active one is handed
/// back unchanged.
pub proof fn law_active_session(found: Option<Session>, now: Timestamp)
    ensures
        found is None ==> active_session_outcome(found, now) matches Err(SessionError::SessionNotFound),
        found matches Some(x) ==> (active_session_outcome(found, now) matches Err(SessionError::SessionExpired)
            <==> (x.expires_at.secs < now.secs || (x.expires_at.secs == now.secs && x.expires_at.nanos < now.nanos))),
        found matches Some(x) ==> (!(x.expires_at.secs < now.secs || (x.expires_at.secs == now.secs && x.expires_at.nanos < now.nanos)) ==> active_session_outcome(found, now) == Ok::<Session, SessionError>(x)),
{
}

/// Loading the session a request names decides at `now` whether the proof
/// is asked for: a session whose expiry is before `now` ends authentication
/// as expired, and an active one moves on to proof verification with that
/// session.
pub proof fn law_loaded_session_decides(token: String, token_hash: String, x: Session, now: Timestamp, next: Authentication)
    requires
        authentication_step(
            Authentication::LoadSession { token, token_hash },
            AuthenticationEvent::SessionLoaded(Ok(Some(x))),
            now,
            next,
        ),
    ensures
        (x.expires_at.secs < now.secs || (x.expires_at.secs == now.secs && x.expires_at.nanos < now.nanos)) ==> next == Authentication::Finished(Err(SessionError::SessionExpired)),
        !(x.expires_at.secs < now.secs || (x.expires_at.secs == now.secs && x.expires_at.nanos < now.nanos)) ==> (next matches Authentication::VerifyProof { token: t, session } && t@ == token@ && session == x),
{
}

/// A new session and the token that names it.
#[derive(Debug)]
pub struct MintedSession {
    /// The raw token, only ever handed to the caller once.
    pub token: String,
    /// The id of the session's document.
    pub token_hash: String,
    pub session: Session,
    /// When the session was issued; it expires `SESSION_TTL_SECONDS` later.
    pub issued_at: Timestamp,
}

/// 32 bytes from `rand::fill` (the thread-local generator). Trusted: 32
/// bytes come back; which ones is not stated.
#[verifier::external_body]
fn random_token_bytes() -> (b: Vec<u8>)
    ensures
        b@.len() == 32,
{
    let mut bytes = [0u8; 32];
    rand::fill(&mut bytes);
    bytes.to_vec()
}

/// A session for `user_id` starting at `now`, bound to the DPoP key
/// thumbprint `jkt`, named by the base64url text of `token_bytes`.
pub fn session_from(user_id: UserId, jkt: &str, token_bytes: &[u8], now: Timestamp) -> (r: MintedSession)
    requires
        now.secs + SESSION_TTL_SECONDS <= i64::MAX,
    ensures
        r.token@ == base64url_text(token_bytes@),
        r.token@.len() == (4 * token_bytes@.len() + 2) / 3,
        forall|i: int| 0 <= i < r.token@.len() ==> is_base64url_char(#[trigger] r.token@[i]),
        r.token_hash@ == spec_hash_token(r.token@),
        r.session.user_id == user_id,
        r.session.jkt@ == jkt@,
        r.session.expires_at.secs == now.secs + SESSION_TTL_SECONDS,
        r.session.expires_at.nanos == now.nanos,
        r.issued_at == now,
{
    let token = base64url(token_bytes);
    proof {
        lemma_base64url_text(token_bytes@);
    }
    let token_hash = hash_token(token.as_str());
    MintedSession {
        token,
        token_hash,
        session: Session {
            user_id,
            jkt: String::from_str(jkt),
            expires_at: now.plus_seconds(SESSION_TTL_SECONDS),
        },
        issued_at: now,
    }
}

/// Mints a new opaque session token bound to `jkt` (the DPoP key
/// thumbprint verified for this logon): 32 random bytes, base64url-encoded,
/// expiring `SESSION_TTL_SECONDS` after the current time.
pub fn mint_session(user_id: UserId, jkt: &str) -> (r: MintedSession)
    ensures
        exists|bytes: Seq<u8>| bytes.len() == 32 && r.token@ == base64url_text(bytes),
        r.token@.len() == 43,
        forall|i: int| 0 <= i < r.token@.len() ==> is_base64url_char(#[trigger] r.token@[i]),
        r.token_hash@ == spec_hash_token(r.token@),
        r.session.user_id == user_id,
        r.session.jkt@ == jkt@,
        SESSION_TTL_SECONDS <= r.session.expires_at.secs < CLOCK_SECS_LIMIT + SESSION_TTL_SECONDS,
        r.session.expires_at.nanos < 1_000_000_000,
        clock_reading(r.issued_at),
        r.session.expires_at.secs == r.issued_at.secs + SESSION_TTL_SECONDS,
        r.session.expires_at.nanos == r.issued_at.nanos,
{
    let bytes = random_token_bytes();
    let t = now();
    session_from(user_id, jkt, bytes.as_slice(), t)
}

/// Presenting a token: a header value made of the `DPoP` scheme (in any
/// ASCII case), a space and a non-empty token parses back to that token,
/// spaces in the token included.
pub proof fn law_authorization_round_trip(scheme: Seq<char>, token: Seq<char>)
    requires
        eq_ignore_ascii_case(scheme, dpop_scheme()),
        token.len() > 0,
    ensures
        authorization_token(scheme + seq![' '] + token) == Some(token),
{
    let h = scheme + seq![' '] + token;
    assert forall|q: int| 0 <= q < 4 implies h[q] != ' ' by {
        assert(ascii_lower(scheme[q]) == ascii_lower(dpop_scheme()[q]));
    }
    assert(is_first_space(h, 4));
    let p = choose|p: int| is_first_space(h, p);
    lemma_first_space_unique(h, 4, p);
    assert(h.subrange(5, h.len() as int) =~= token);
    assert(h.subrange(0, 4) =~= scheme);
}

/// A value without a space presents no token.
pub proof fn law_no_space_no_token(h: Seq<char>)
    requires
        forall|i: int| 0 <= i < h.len() ==> h[i] != ' ',
    ensures
        authorization_token(h) is None,
{
}

/// `t` moved `secs` seconds later.
pub open spec fn later(t: Timestamp, secs: int) -> Timestamp {
    Timestamp { secs: (t.secs + secs) as i64, nanos: t.nanos }
}

/// A session minted at `t` is active from `t` through its expiry, and has
/// expired any whole second after it.
pub proof fn law_session_lifetime(t: Timestamp, at: Timestamp)
    requires
        0 <= t.secs < CLOCK_SECS_LIMIT,
    ensures
        !is_before(later(t, SESSION_TTL_SECONDS as int), t),
        (t.secs <= at.secs && at.secs < t.secs + SESSION_TTL_SECONDS) ==> !is_before(later(t, SESSION_TTL_SECONDS as int), at),
        at.secs > t.secs + SESSION_TTL_SECONDS ==> is_before(later(t, SESSION_TTL_SECONDS as int), at),
{
}

} // verus!
