use users::clock::Timestamp;
use users::dpop::{jwk_thumbprint, VerifiedProof};
use users::session::{
    bind_proof, check_active_session, check_active_session_now, hash_token, mint_session, parse_dpop_authorization,
    session_from, Session, SessionError, SESSION_TTL_SECONDS,
};
use users::store::UserId;

fn session(expires: i64, nanos: u32) -> Session {
    Session { user_id: UserId(7), jkt: "bound-jkt".to_string(), expires_at: Timestamp { secs: expires, nanos } }
}

#[test]
fn hash_token_is_base64url_sha256() {
    assert_eq!(hash_token("abc"), "ungWv48Bz-pBQUDeXa4iI7ADYaOWF3qctBD_YfIAFa0");
    assert_eq!(hash_token("tökén"), "xhpwXjKROoWJIf7APH3AJZJQeD8349gjQee9pv5-eDM");
}

#[test]
fn dpop_scheme_header_yields_the_token() {
    assert_eq!(parse_dpop_authorization("DPoP abc.def").unwrap(), "abc.def");
    assert_eq!(parse_dpop_authorization("dpop xyz").unwrap(), "xyz");
    assert_eq!(parse_dpop_authorization("DPOP a b").unwrap(), "a b");
}

#[test]
fn other_schemes_and_missing_tokens_are_rejected() {
    for h in ["Bearer abc", "DPoP", "DPoP ", "", "DPoPx abc", " DPoP abc", "DPo abc"] {
        assert!(
            matches!(parse_dpop_authorization(h), Err(SessionError::InvalidAuthorizationScheme)),
            "{h:?} should be rejected"
        );
    }
}

#[test]
fn missing_session_is_not_found() {
    assert!(matches!(check_active_session(None, Timestamp { secs: 0, nanos: 0 }), Err(SessionError::SessionNotFound)));
    assert!(matches!(check_active_session_now(None), Err(SessionError::SessionNotFound)));
}

#[test]
fn session_is_active_through_its_expiry() {
    let now = Timestamp { secs: 100, nanos: 5 };
    assert!(check_active_session(Some(session(100, 5)), now).is_ok());
    assert!(check_active_session(Some(session(101, 0)), now).is_ok());
    assert!(matches!(check_active_session(Some(session(100, 4)), now), Err(SessionError::SessionExpired)));
    assert!(matches!(check_active_session(Some(session(99, 999)), now), Err(SessionError::SessionExpired)));
}

#[test]
fn long_expired_session_is_expired_now() {
    assert!(matches!(check_active_session_now(Some(session(0, 0))), Err(SessionError::SessionExpired)));
}

#[test]
fn proof_from_the_bound_key_authenticates() {
    let a = bind_proof("tok", session(100, 0), VerifiedProof { jkt: "bound-jkt".to_string() }).unwrap();
    assert_eq!(a.user_id, UserId(7));
    assert_eq!(a.token, "tok");
    assert_eq!(a.token_hash, hash_token("tok"));
}

#[test]
fn proof_from_another_key_is_a_key_mismatch() {
    let r = bind_proof("tok", session(100, 0), VerifiedProof { jkt: jwk_thumbprint("x", "y") });
    assert!(matches!(r, Err(SessionError::KeyMismatch)));
}

#[test]
fn session_from_bytes_expires_after_the_ttl() {
    let bytes: Vec<u8> = (0u8..32).collect();
    let m = session_from(UserId(9), "jkt", &bytes, Timestamp { secs: 1000, nanos: 3 });
    assert_eq!(m.token, "AAECAwQFBgcICQoLDA0ODxAREhMUFRYXGBkaGxwdHh8");
    assert_eq!(m.token_hash, hash_token(&m.token));
    assert_eq!(m.session.user_id, UserId(9));
    assert_eq!(m.session.jkt, "jkt");
    assert_eq!(m.session.expires_at, Timestamp { secs: 1000 + SESSION_TTL_SECONDS, nanos: 3 });
    assert_eq!(SESSION_TTL_SECONDS, 900);
}

#[test]
fn minted_sessions_are_distinct_and_bound() {
    let a = mint_session(UserId(1), "k");
    let b = mint_session(UserId(1), "k");
    assert_eq!(a.token.len(), 43);
    assert_ne!(a.token, b.token);
    assert_eq!(a.token_hash, hash_token(&a.token));
    assert_eq!(a.session.jkt, "k");
    assert!(check_active_session_now(Some(a.session)).is_ok());
}

#[test]
fn minted_session_lasts_exactly_its_ttl() {
    let start = Timestamp { secs: 5_000, nanos: 250 };
    let m = session_from(UserId(1), "k", &[7u8; 32], start);
    let at_start = check_active_session(Some(m.session), start);
    assert!(at_start.is_ok());
    let s = at_start.unwrap();
    let last = Timestamp { secs: 5_000 + SESSION_TTL_SECONDS, nanos: 250 };
    let s = check_active_session(Some(s), last).unwrap();
    let after = Timestamp { secs: 5_000 + SESSION_TTL_SECONDS + 1, nanos: 0 };
    assert!(matches!(check_active_session(Some(s), after), Err(SessionError::SessionExpired)));
}
