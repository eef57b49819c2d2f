use users::dpop::{
    check_claims, check_proof_header, jwk_thumbprint, replay_outcome, request_url, verified_proof, DpopClaims,
    DpopError, JwtAlgorithm, KeyCurve, KeyParams, ProofHeader, ProofKey,
};
use users::store::StoreError;

const X: &str = "f83OJ3D2xF1Bg8vub9tLe1gHMzV76e8Tus9uPHvRVEU";
const Y: &str = "x_FEzRu9m36HLN_tue659LNpXW6pCyStikYjKIWI5a0";

fn header(typ: Option<&str>, alg: JwtAlgorithm, jwk: Option<KeyParams>) -> ProofHeader {
    ProofHeader { typ: typ.map(|t| t.to_string()), alg, jwk }
}

fn ec(curve: KeyCurve) -> Option<KeyParams> {
    Some(KeyParams::EllipticCurve(curve, X.to_string(), Y.to_string()))
}

fn claims(htm: &str, htu: &str, iat: i64) -> DpopClaims {
    DpopClaims { jti: "jti-1".to_string(), htm: htm.to_string(), htu: htu.to_string(), iat }
}

#[test]
fn valid_header_yields_the_key() {
    let key = check_proof_header(header(Some("dpop+jwt"), JwtAlgorithm::ES256, ec(KeyCurve::P256))).unwrap();
    assert_eq!(key.x, X);
    assert_eq!(key.y, Y);
}

#[test]
fn wrong_type_is_rejected_first() {
    let r = check_proof_header(header(Some("JWT"), JwtAlgorithm::HS256, None));
    assert!(matches!(r, Err(DpopError::UnsupportedType)));
    let r = check_proof_header(header(None, JwtAlgorithm::ES256, ec(KeyCurve::P256)));
    assert!(matches!(r, Err(DpopError::UnsupportedType)));
}

#[test]
fn wrong_algorithm_is_rejected() {
    let r = check_proof_header(header(Some("dpop+jwt"), JwtAlgorithm::RS256, ec(KeyCurve::P256)));
    assert!(matches!(r, Err(DpopError::UnsupportedAlgorithm)));
}

#[test]
fn missing_key_is_malformed() {
    let r = check_proof_header(header(Some("dpop+jwt"), JwtAlgorithm::ES256, None));
    assert!(matches!(r, Err(DpopError::MissingOrMalformedHeader)));
}

#[test]
fn other_keys_are_unsupported() {
    let r = check_proof_header(header(Some("dpop+jwt"), JwtAlgorithm::ES256, ec(KeyCurve::P384)));
    assert!(matches!(r, Err(DpopError::UnsupportedKeyType)));
    let r = check_proof_header(header(Some("dpop+jwt"), JwtAlgorithm::ES256, Some(KeyParams::NotEllipticCurve)));
    assert!(matches!(r, Err(DpopError::UnsupportedKeyType)));
}

#[test]
fn matching_fresh_claims_are_accepted() {
    assert!(check_claims(&claims("POST", "http://localhost/test", 1000), "POST", "http://localhost/test", 1000).is_ok());
    assert!(check_claims(&claims("POST", "http://localhost/test", 940), "POST", "http://localhost/test", 1000).is_ok());
    assert!(check_claims(&claims("POST", "http://localhost/test", 1060), "POST", "http://localhost/test", 1000).is_ok());
}

#[test]
fn wrong_method_claim_is_rejected() {
    let r = check_claims(&claims("GET", "http://localhost/test", 1000), "POST", "http://localhost/test", 1000);
    assert!(matches!(r, Err(DpopError::MethodMismatch)));
}

#[test]
fn wrong_url_claim_is_rejected() {
    let r = check_claims(&claims("POST", "http://localhost/other", 1000), "POST", "http://localhost/test", 1000);
    assert!(matches!(r, Err(DpopError::UrlMismatch)));
}

#[test]
fn stale_or_future_iat_is_rejected() {
    let now = 1_700_000_000;
    let r = check_claims(&claims("POST", "http://localhost/test", now - 3600), "POST", "http://localhost/test", now);
    assert!(matches!(r, Err(DpopError::StaleProof)));
    let r = check_claims(&claims("POST", "http://localhost/test", now - 61), "POST", "http://localhost/test", now);
    assert!(matches!(r, Err(DpopError::StaleProof)));
    let r = check_claims(&claims("POST", "http://localhost/test", now + 61), "POST", "http://localhost/test", now);
    assert!(matches!(r, Err(DpopError::StaleProof)));
    let r = check_claims(&claims("POST", "http://localhost/test", i64::MIN), "POST", "http://localhost/test", now);
    assert!(matches!(r, Err(DpopError::StaleProof)));
}

#[test]
fn recording_a_new_jti_passes() {
    assert!(replay_outcome(Ok(())).is_ok());
}

#[test]
fn existing_jti_is_a_replay() {
    let e = StoreError { detail: "DataConflictError(FirestoreDataConflictError { public: FirestoreErrorPublicGenericDetails { code: \"AlreadyExists\" } })".to_string() };
    assert!(matches!(replay_outcome(Err(e)), Err(DpopError::Replayed)));
}

#[test]
fn other_store_failures_pass_through() {
    let e = StoreError { detail: "DatabaseError(unavailable)".to_string() };
    match replay_outcome(Err(e)) {
        Err(DpopError::Firestore(e)) => assert_eq!(e.detail, "DatabaseError(unavailable)"),
        other => panic!("unexpected {other:?}"),
    }
}

#[test]
fn thumbprint_is_sha256_of_canonical_jwk() {
    assert_eq!(jwk_thumbprint(X, Y), "oKIywvGUpTVTyxMQ3bwIIeQUudfr_CkLMjCE19ECD-U");
}

#[test]
fn verified_proof_carries_the_thumbprint() {
    let v = verified_proof(&ProofKey { x: X.to_string(), y: Y.to_string() });
    assert_eq!(v.jkt, jwk_thumbprint(X, Y));
}

#[test]
fn invalid_proof_keeps_the_decoder_error() {
    let e: jsonwebtoken::errors::Error = jsonwebtoken::errors::ErrorKind::InvalidSignature.into();
    let err = DpopError::InvalidProof(e);
    assert!(matches!(err, DpopError::InvalidProof(_)));
}

#[test]
fn request_url_joins_origin_and_path() {
    assert_eq!(request_url("http://localhost:8080", "/api/logout"), "http://localhost:8080/api/logout");
}
