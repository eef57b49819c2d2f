//! The steps that order the services' work: authenticating a request,
//! looking up group grants, and issuing a session at logon.

use users::attributes::Attributes;
use users::authorization::{record_group_lookup, resolve_grants};
use users::clock::Timestamp;
use users::admin::AdminError;
use users::check::CheckError;
use users::dpop::{jwk_thumbprint, DpopError, VerifiedProof};
use users::logout::LogoutError;
use users::logon::{encode_credential_id, logon_session, require_dpop_proof, LogonError};
use users::session::{
    advance_authentication, dpop_request_headers, hash_token, start_authentication, Authentication,
    AuthenticationEvent, MissingHeader, Session, SessionError,
};
use users::store::{StoreError, UserId};

const NOW: Timestamp = Timestamp { secs: 1_725_029_869, nanos: 0 };

fn session_until(secs: i64, jkt: &str) -> Session {
    Session { user_id: UserId(42), jkt: jkt.to_string(), expires_at: Timestamp { secs, nanos: 0 } }
}

fn loading(token: &str) -> Authentication {
    let state = start_authentication(&format!("DPoP {token}"));
    assert!(matches!(&state, Authentication::LoadSession { .. }));
    state
}

fn verifying(jkt: &str) -> Authentication {
    let loaded = AuthenticationEvent::SessionLoaded(Ok(Some(session_until(NOW.secs + 60, jkt))));
    advance_authentication(loading("tok"), loaded, NOW)
}

#[test]
fn malformed_header_ends_authentication_at_once() {
    for h in ["Bearer tok", "DPoP", "DPoP "] {
        assert!(matches!(
            start_authentication(h),
            Authentication::Finished(Err(SessionError::InvalidAuthorizationScheme))
        ));
    }
}

#[test]
fn authentication_first_loads_the_named_session() {
    match start_authentication("dpop tok en") {
        Authentication::LoadSession { token, token_hash } => {
            assert_eq!(token, "tok en");
            assert_eq!(token_hash, hash_token("tok en"));
        }
        other => panic!("unexpected state {other:?}"),
    }
}

#[test]
fn inactive_sessions_end_authentication_before_any_proof() {
    let missing = advance_authentication(loading("tok"), AuthenticationEvent::SessionLoaded(Ok(None)), NOW);
    assert!(matches!(missing, Authentication::Finished(Err(SessionError::SessionNotFound))));

    let expired = AuthenticationEvent::SessionLoaded(Ok(Some(session_until(NOW.secs - 1, "k"))));
    assert!(matches!(
        advance_authentication(loading("tok"), expired, NOW),
        Authentication::Finished(Err(SessionError::SessionExpired))
    ));

    let failed = AuthenticationEvent::SessionLoaded(Err(StoreError { detail: "unavailable".to_string() }));
    match advance_authentication(loading("tok"), failed, NOW) {
        Authentication::Finished(Err(SessionError::Firestore(e))) => assert_eq!(e.detail, "unavailable"),
        other => panic!("unexpected state {other:?}"),
    }
}

#[test]
fn active_session_asks_for_the_proof() {
    match verifying("bound") {
        Authentication::VerifyProof { token, session } => {
            assert_eq!(token, "tok");
            assert_eq!(session.jkt, "bound");
            assert_eq!(session.user_id, UserId(42));
        }
        other => panic!("unexpected state {other:?}"),
    }
}

#[test]
fn proof_by_the_bound_key_authenticates() {
    let proof = AuthenticationEvent::ProofVerified(Ok(VerifiedProof { jkt: "bound".to_string() }));
    match advance_authentication(verifying("bound"), proof, NOW) {
        Authentication::Finished(Ok(a)) => {
            assert_eq!(a.user_id, UserId(42));
            assert_eq!(a.token, "tok");
            assert_eq!(a.token_hash, hash_token("tok"));
        }
        other => panic!("unexpected state {other:?}"),
    }
}

#[test]
fn proof_by_another_key_or_refused_proof_fails() {
    let other_key = AuthenticationEvent::ProofVerified(Ok(VerifiedProof { jkt: "other".to_string() }));
    assert!(matches!(
        advance_authentication(verifying("bound"), other_key, NOW),
        Authentication::Finished(Err(SessionError::KeyMismatch))
    ));
    let refused = AuthenticationEvent::ProofVerified(Err(DpopError::StaleProof));
    assert!(matches!(
        advance_authentication(verifying("bound"), refused, NOW),
        Authentication::Finished(Err(SessionError::Dpop(DpopError::StaleProof)))
    ));
}

#[test]
fn unasked_event_changes_nothing() {
    let proof = AuthenticationEvent::ProofVerified(Ok(VerifiedProof { jkt: "bound".to_string() }));
    match advance_authentication(loading("tok"), proof, NOW) {
        Authentication::LoadSession { token, .. } => assert_eq!(token, "tok"),
        other => panic!("unexpected state {other:?}"),
    }
    let done = Authentication::Finished(Err(SessionError::SessionNotFound));
    assert!(matches!(
        advance_authentication(done, AuthenticationEvent::SessionLoaded(Ok(None)), NOW),
        Authentication::Finished(Err(SessionError::SessionNotFound))
    ));
}

#[test]
fn group_lookups_stop_at_the_first_grant() {
    let mut lookups: Vec<Option<Attributes<i64>>> = Vec::new();
    assert!(!record_group_lookup(&mut lookups, None));
    let mut granted = Attributes::new();
    granted.insert("level".to_string(), 3);
    assert!(record_group_lookup(&mut lookups, Some(granted)));
    assert_eq!(lookups.len(), 2);
    let resolved = resolve_grants(lookups, None).unwrap();
    assert_eq!(resolved.get("level"), Some(&3));
}

#[test]
fn logon_issues_a_session_bound_to_the_proof_key() {
    let jkt = jwk_thumbprint("x-coordinate", "y-coordinate");
    let minted = logon_session(UserId(9), &VerifiedProof { jkt: jkt.clone() });
    assert_eq!(minted.session.user_id, UserId(9));
    assert_eq!(minted.session.jkt, jkt);
    assert_eq!(minted.token.len(), 43);
    assert!(minted.token.chars().all(|c| c.is_ascii_alphanumeric() || c == '-' || c == '_'));
    assert_eq!(minted.token_hash, hash_token(&minted.token));
    let other = logon_session(UserId(9), &VerifiedProof { jkt });
    assert_ne!(minted.token, other.token);
}

#[test]
fn logon_proof_errors_answer() {
    assert_eq!(LogonError::MissingDpopProof.into_response().status, 400);
    let refused = LogonError::Dpop(DpopError::Replayed).into_response();
    assert_eq!(refused.status, 401);
    assert_eq!(refused.message, "invalid DPoP proof");
}

#[test]
fn base64url_text_of_known_bytes() {
    assert_eq!(encode_credential_id(&[]), "");
    assert_eq!(encode_credential_id(&[0xfb]), "-w");
    assert_eq!(encode_credential_id(&[0xff, 0xff]), "__8");
    assert_eq!(encode_credential_id(b"hello"), "aGVsbG8");
    assert_eq!(encode_credential_id(&[0u8; 32]).len(), 43);
}

#[test]
fn authorization_header_is_required_first() {
    assert_eq!(dpop_request_headers(None, None), Err(MissingHeader::Authorization));
    assert_eq!(dpop_request_headers(None, Some("p")), Err(MissingHeader::Authorization));
    assert_eq!(dpop_request_headers(Some("DPoP t"), None), Err(MissingHeader::Dpop));
    assert_eq!(dpop_request_headers(Some("DPoP t"), Some("p")), Ok(("DPoP t", "p")));
}

#[test]
fn missing_headers_answer_per_service() {
    assert_eq!(AdminError::missing(MissingHeader::Authorization).into_response().status, 401);
    assert_eq!(AdminError::missing(MissingHeader::Dpop).into_response().status, 400);
    assert_eq!(CheckError::missing(MissingHeader::Authorization).into_response().status, 401);
    assert_eq!(CheckError::missing(MissingHeader::Dpop).into_response().status, 400);
    assert_eq!(LogoutError::missing(MissingHeader::Authorization).into_response().status, 401);
    let dpop = LogoutError::missing(MissingHeader::Dpop).into_response();
    assert_eq!((dpop.status, dpop.message.as_str()), (400, "missing DPoP proof header"));
}

#[test]
fn logon_finish_needs_a_dpop_proof() {
    assert_eq!(require_dpop_proof(Some("proof")).unwrap(), "proof");
    assert!(matches!(require_dpop_proof(None), Err(LogonError::MissingDpopProof)));
}
