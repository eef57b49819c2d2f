//! DPoP proofs (RFC 9449): which proof headers and claims are accepted,
//! replay detection, and the RFC 7638 thumbprint of the proof's key.
//!
//! Decoding the JWT and checking its ES256 signature is `jsonwebtoken`'s
//! work, called from here; reading the signed claims text into
//! `DpopClaims` is serde's, done by the caller. This module decides on what
//! comes out of them, in order: header, signature, claims.

use vstd::prelude::*;

use jsonwebtoken::jwk::AlgorithmParameters::{EllipticCurve as EcKey, OctetKey, OctetKeyPair, RSA};
use jsonwebtoken::jwk::EllipticCurve::{Ed25519, P256, P384, P521};
use jsonwebtoken::Algorithm::{EdDSA, ES256, ES384, HS256, HS384, HS512, PS256, PS384, PS512, RS256, RS384, RS512};
use jsonwebtoken::{decode, decode_header, DecodingKey, Validation};
use serde_json::value::RawValue;

use crate::clock::{now, CLOCK_SECS_LIMIT};
use crate::codec::{base64url, base64url_text, is_base64url_char, lemma_base64url_text, sha256, spec_sha256};
use crate::store::StoreError;
use crate::text::{contains_str, occurs_in};

verus! {

broadcast use vstd::string::group_string_axioms;

/// An error that `jsonwebtoken` reports for a proof it could not decode or
/// whose signature did not verify.
#[verifier::external_type_specification]
#[verifier::external_body]
pub struct ExJwtError(jsonwebtoken::errors::Error);

/// How far a proof's `iat` may drift from the server's clock before it is
/// rejected as stale. Also bounds how long a `jti` needs to be remembered
/// for replay detection.
pub const IAT_TOLERANCE_SECONDS: i64 = 60;

/// The JWS algorithms a JWT header can name.
#[derive(Clone, Copy, Debug, PartialEq, Eq, Structural)]
pub enum JwtAlgorithm {
    HS256,
    HS384,
    HS512,
    ES256,
    ES384,
    RS256,
    RS384,
    RS512,
    PS256,
    PS384,
    PS512,
    EdDSA,
}

/// The curves a JWK can name.
#[derive(Clone, Copy, Debug, PartialEq, Eq, Structural)]
pub enum KeyCurve {
    P256,
    P384,
    P521,
    Ed25519,
}

/// The key material a JWK carries, as far as proof checking reads it: an
/// elliptic-curve key's curve and base64url coordinates `x` and `y`, or
/// that it is a key of another type (RSA, symmetric, octet key pair).
#[derive(Debug)]
pub enum KeyParams {
    EllipticCurve(KeyCurve, String, String),
    NotEllipticCurve,
}

/// The fields of a proof's JOSE header that proof checking reads.
#[derive(Debug)]
pub struct ProofHeader {
    pub typ: Option<String>,
    pub alg: JwtAlgorithm,
    pub jwk: Option<KeyParams>,
}

/// The public P-256 key a proof was signed with, as its base64url
/// coordinates.
#[derive(Debug)]
pub struct ProofKey {
    pub x: String,
    pub y: String,
}

/// The claims of a DPoP proof.
#[derive(Debug)]
pub struct DpopClaims {
    pub jti: String,
    pub htm: String,
    pub htu: String,
    pub iat: i64,
}

/// A proof that passed every check.
#[derive(Debug)]
pub struct VerifiedProof {
    /// RFC 7638 JWK thumbprint of the public key that signed this proof.
    pub jkt: String,
}

#[derive(Debug)]
pub enum DpopError {
    MissingOrMalformedHeader,
    UnsupportedType,
    UnsupportedAlgorithm,
    UnsupportedKeyType,
    /// Signature verification or claims decoding failed (jsonwebtoken
    /// combines both into a single `decode()` result).
    InvalidProof(jsonwebtoken::errors::Error),
    MethodMismatch,
    UrlMismatch,
    StaleProof,
    Replayed,
    Firestore(StoreError),
}

/// The `typ` a DPoP proof header must carry: `dpop+jwt`.
pub open spec fn dpop_typ() -> Seq<char> {
    seq!['d', 'p', 'o', 'p', '+', 'j', 'w', 't']
}

/// What checking `h` gives: the P-256 key coordinates, or the first check
/// that failed (type, then algorithm, then key presence, then key type).
pub open spec fn header_outcome(h: ProofHeader) -> Result<(Seq<char>, Seq<char>), DpopError> {
    if !(h.typ matches Some(t) && t@ == dpop_typ()) {
        Err(DpopError::UnsupportedType)
    } else if h.alg != JwtAlgorithm::ES256 {
        Err(DpopError::UnsupportedAlgorithm)
    } else {
        match h.jwk {
            None => Err(DpopError::MissingOrMalformedHeader),
            Some(KeyParams::EllipticCurve(curve, x, y)) => if curve == KeyCurve::P256 {
                Ok((x@, y@))
            } else {
                Err(DpopError::UnsupportedKeyType)
            },
            Some(_) => Err(DpopError::UnsupportedKeyType),
        }
    }
}

/// The result of a header check agrees with `header_outcome` (errors other
/// than `InvalidProof` and `Firestore` carry nothing to compare).
pub open spec fn matches_header_outcome(
    r: Result<ProofKey, DpopError>,
    o: Result<(Seq<char>, Seq<char>), DpopError>,
) -> bool {
    match (r, o) {
        (Ok(k), Ok((x, y))) => k.x@ == x && k.y@ == y,
        (Err(e), Err(f)) => e == f,
        _ => false,
    }
}

/// Checks a proof's header: `typ` must be `dpop+jwt`, `alg` ES256, and the
/// embedded JWK an EC key on P-256, whose coordinates are returned.
pub fn check_proof_header(header: ProofHeader) -> (r: Result<ProofKey, DpopError>)
    ensures
        matches_header_outcome(r, header_outcome(header)),
{
    let wanted = String::from_str("dpop+jwt");
    proof {
        reveal_strlit("dpop+jwt");
        assert(wanted@ =~= dpop_typ());
    }
    let typ_ok = match &header.typ {
        Some(t) => *t == wanted,
        None => false,
    };
    if !typ_ok {
        return Err(DpopError::UnsupportedType);
    }
    if header.alg != JwtAlgorithm::ES256 {
        return Err(DpopError::UnsupportedAlgorithm);
    }
    match header.jwk {
        None => Err(DpopError::MissingOrMalformedHeader),
        Some(KeyParams::EllipticCurve(curve, x, y)) => {
            if curve == KeyCurve::P256 {
                Ok(ProofKey { x, y })
            } else {
                Err(DpopError::UnsupportedKeyType)
            }
        },
        Some(_) => Err(DpopError::UnsupportedKeyType),
    }
}

/// The URL a request to `path` on `origin` is made to, which its proof's
/// `htu` must name exactly.
pub fn request_url(origin: &str, path: &str) -> (r: String)
    ensures
        r@ == origin@ + path@,
{
    let mut url = String::from_str(origin);
    url.append(path);
    url
}

/// The header `jsonwebtoken::decode_header` reads from a proof, if any.
pub uninterp spec fn spec_decoded_header(proof: Seq<char>) -> Option<ProofHeader>;

/// `jsonwebtoken::decode_header`, its result read into a `ProofHeader`.
/// Trusted: the result is a function of the proof text alone (named, not
/// spelled out); it is `None` where the text, split at its last two dots,
/// does not start with a base64url-encoded JSON JOSE header that
/// `jsonwebtoken` reads. Which texts those are is not stated.
#[verifier::external_body]
fn decode_proof_header(proof: &str) -> (r: Option<ProofHeader>)
    ensures
        r == spec_decoded_header(proof@),
{
    let h = decode_header(proof).ok()?;
    let jwk = h.jwk.map(|k| match k.algorithm {
        EcKey(ec) => KeyParams::EllipticCurve(match ec.curve {
            P256 => KeyCurve::P256, P384 => KeyCurve::P384, P521 => KeyCurve::P521, Ed25519 => KeyCurve::Ed25519,
        }, ec.x, ec.y),
        RSA(_) | OctetKey(_) | OctetKeyPair(_) => KeyParams::NotEllipticCurve,
    });
    Some(ProofHeader { typ: h.typ, jwk, alg: match h.alg {
        HS256 => JwtAlgorithm::HS256, HS384 => JwtAlgorithm::HS384, HS512 => JwtAlgorithm::HS512,
        ES256 => JwtAlgorithm::ES256, ES384 => JwtAlgorithm::ES384, RS256 => JwtAlgorithm::RS256,
        RS384 => JwtAlgorithm::RS384, RS512 => JwtAlgorithm::RS512, PS256 => JwtAlgorithm::PS256,
        PS384 => JwtAlgorithm::PS384, PS512 => JwtAlgorithm::PS512, EdDSA => JwtAlgorithm::EdDSA,
    } })
}

/// The claims object of a proof, as the JSON text it was signed as, when
/// the proof's ES256 signature verifies under the P-256 key `(x, y)` and it
/// passes `jsonwebtoken`'s validation with expiry and required claims
/// switched off.
pub uninterp spec fn spec_signed_claims(proof: Seq<char>, x: Seq<char>, y: Seq<char>) -> Option<Seq<char>>;

/// `jsonwebtoken::DecodingKey::from_ec_components` and
/// `jsonwebtoken::decode` (ES256, no expiry or required-claim checks) into
/// a raw JSON value, handed back as its text. Trusted: the result is a
/// function of the proof text and the key alone (named, not spelled out),
/// and it is an error exactly when the name has no value; which error is
/// not stated.
#[verifier::external_body]
fn decode_signed_claims(proof: &str, key: &ProofKey) -> (r: Result<String, jsonwebtoken::errors::Error>)
    ensures
        (r is Ok) == (spec_signed_claims(proof@, key.x@, key.y@) is Some),
        r matches Ok(c) ==> spec_signed_claims(proof@, key.x@, key.y@) == Some(c@),
{
    let key = DecodingKey::from_ec_components(&key.x, &key.y)?;
    let mut validation = Validation::new(ES256);
    validation.required_spec_claims.clear();
    validation.validate_exp = false;
    Ok(decode::<Box<RawValue>>(proof, &key, &validation)?.claims.get().to_string())
}

/// A proof whose header passed its checks and whose signature verified
/// under the key that header carries: the key, and the proof's claims
/// object as the JSON text it was signed as.
#[derive(Debug)]
pub struct SignedProof {
    pub key: ProofKey,
    pub claims_json: String,
}

/// `e` and `f` are the same refusal (an `InvalidProof` carries whatever the
/// decoder reported).
pub open spec fn same_refusal(e: DpopError, f: DpopError) -> bool {
    match (e, f) {
        (DpopError::InvalidProof(_), DpopError::InvalidProof(_)) => true,
        _ => e == f,
    }
}

/// What checking a proof's header and signature gives, in order: the
/// header must decode and pass its checks, then the signature must verify
/// under the header's key. Accepted, it is the key's coordinates and the
/// signed claims text.
pub open spec fn signature_outcome(proof: Seq<char>) -> Result<(Seq<char>, Seq<char>, Seq<char>), DpopError> {
    match spec_decoded_header(proof) {
        None => Err(DpopError::MissingOrMalformedHeader),
        Some(h) => match header_outcome(h) {
            Err(e) => Err(e),
            Ok((x, y)) => match spec_signed_claims(proof, x, y) {
                None => Err(DpopError::InvalidProof(arbitrary())),
                Some(c) => Ok((x, y, c)),
            },
        },
    }
}

/// The result of a signature check agrees with `signature_outcome`.
pub open spec fn matches_signature_outcome(
    r: Result<SignedProof, DpopError>,
    o: Result<(Seq<char>, Seq<char>, Seq<char>), DpopError>,
) -> bool {
    match (r, o) {
        (Ok(p), Ok((x, y, c))) => p.key.x@ == x && p.key.y@ == y && p.claims_json@ == c,
        (Err(e), Err(f)) => same_refusal(e, f),
        _ => false,
    }
}

/// Checks a DPoP proof's (RFC 9449) header, then its signature under the
/// key the header carries. Accepted, it gives the key and the signed claims
/// text, which the caller reads into `DpopClaims` for
/// `check_signed_claims_at`.
pub fn check_proof_signature(proof: &str) -> (r: Result<SignedProof, DpopError>)
    ensures
        matches_signature_outcome(r, signature_outcome(proof@)),
{
    let header = match decode_proof_header(proof) {
        Some(h) => h,
        None => return Err(DpopError::MissingOrMalformedHeader),
    };
    let key = check_proof_header(header)?;
    match decode_signed_claims(proof, &key) {
        Ok(claims_json) => Ok(SignedProof { key, claims_json }),
        Err(e) => Err(DpopError::InvalidProof(e)),
    }
}

/// What checking a signed proof's claims, as read from its claims text,
/// gives at `now`: a refusal carrying what the reader reported where they
/// did not read as `DpopClaims`, else the claims checked against the
/// request. Accepted, it is the `jti` to record.
pub open spec fn claims_read_outcome(
    read: Result<DpopClaims, jsonwebtoken::errors::Error>,
    htm: Seq<char>,
    htu: Seq<char>,
    now: i64,
) -> Result<Seq<char>, DpopError> {
    match read {
        Err(e) => Err(DpopError::InvalidProof(e)),
        Ok(c) => match claims_outcome(c, htm, htu, now) {
            Err(e) => Err(e),
            Ok(_) => Ok(c.jti@),
        },
    }
}

/// The result of a claims check on `signed` agrees with
/// `claims_read_outcome`: accepted, it hands back the signed proof's key.
pub open spec fn matches_claims_read_outcome(
    r: Result<(ProofKey, String), DpopError>,
    signed: SignedProof,
    o: Result<Seq<char>, DpopError>,
) -> bool {
    match (r, o) {
        (Ok((k, jti)), Ok(j)) => k == signed.key && jti@ == j,
        (Err(e), Err(f)) => e == f,
        _ => false,
    }
}

/// Checks the claims of a signed proof against the request it came with,
/// at time `now` (seconds since the epoch). `claims` is the proof's claims
/// text read into `DpopClaims`, or what the JSON reader reported where it
/// does not read as one (a member missing, repeated or of the wrong type).
/// Accepted, it gives the key and the `jti`, which the caller records to
/// detect replays.
pub fn check_signed_claims_at(
    signed: SignedProof,
    claims: Result<DpopClaims, jsonwebtoken::errors::Error>,
    expected_htm: &str,
    expected_htu: &str,
    now: i64,
) -> (r: Result<(ProofKey, String), DpopError>)
    ensures
        matches_claims_read_outcome(r, signed, claims_read_outcome(claims, expected_htm@, expected_htu@, now)),
        r is Ok ==> (claims matches Ok(c) && (
            c.htm@ == expected_htm@ && c.htu@ == expected_htu@
            && now - IAT_TOLERANCE_SECONDS <= c.iat && c.iat <= now + IAT_TOLERANCE_SECONDS
            && r->Ok_0.1@ == c.jti@)),
        (claims matches Ok(c) && (c.htm@ == expected_htm@ && c.htu@ == expected_htu@
            && (c.iat < now - IAT_TOLERANCE_SECONDS || c.iat > now + IAT_TOLERANCE_SECONDS)))
            ==> r matches Err(DpopError::StaleProof),
{
    let claims = match claims {
        Ok(c) => c,
        Err(e) => return Err(DpopError::InvalidProof(e)),
    };
    check_claims(&claims, expected_htm, expected_htu, now)?;
    Ok((signed.key, claims.jti))
}

/// `check_signed_claims_at` at the current time (which reading it is, is
/// not stated).
pub fn check_signed_claims(
    signed: SignedProof,
    claims: Result<DpopClaims, jsonwebtoken::errors::Error>,
    expected_htm: &str,
    expected_htu: &str,
) -> (r: Result<(ProofKey, String), DpopError>)
    ensures
        exists|t: i64| 0 <= t < CLOCK_SECS_LIMIT
            && matches_claims_read_outcome(r, signed, #[trigger] claims_read_outcome(claims, expected_htm@, expected_htu@, t)),
{
    let t = now();
    check_signed_claims_at(signed, claims, expected_htm, expected_htu, t.secs)
}

/// `|now - iat|` exceeds the tolerance.
pub open spec fn is_stale(iat: i64, now: i64) -> bool {
    now - iat > IAT_TOLERANCE_SECONDS || iat - now > IAT_TOLERANCE_SECONDS
}

/// What checking claims against the request gives: method first, then URL,
/// then freshness.
pub open spec fn claims_outcome(c: DpopClaims, htm: Seq<char>, htu: Seq<char>, now: i64) -> Result<(), DpopError> {
    if c.htm@ != htm {
        Err(DpopError::MethodMismatch)
    } else if c.htu@ != htu {
        Err(DpopError::UrlMismatch)
    } else if is_stale(c.iat, now) {
        Err(DpopError::StaleProof)
    } else {
        Ok(())
    }
}

/// Checks a proof's claims against the request it came with, at time `now`
/// (seconds since the epoch): the method and the URL must be the expected
/// ones, and `iat` within `IAT_TOLERANCE_SECONDS` of `now` either way.
pub fn check_claims(claims: &DpopClaims, expected_htm: &str, expected_htu: &str, now: i64) -> (r: Result<(), DpopError>)
    ensures
        r == claims_outcome(*claims, expected_htm@, expected_htu@, now),
{
    if claims.htm != String::from_str(expected_htm) {
        return Err(DpopError::MethodMismatch);
    }
    if claims.htu != String::from_str(expected_htu) {
        return Err(DpopError::UrlMismatch);
    }
    let drift: i128 = now as i128 - claims.iat as i128;
    if drift > IAT_TOLERANCE_SECONDS as i128 || -drift > IAT_TOLERANCE_SECONDS as i128 {
        return Err(DpopError::StaleProof);
    }
    Ok(())
}

/// The text by which the store reports that a document already exists.
pub open spec fn already_exists_marker() -> Seq<char> {
    seq!['A', 'l', 'r', 'e', 'a', 'd', 'y', 'E', 'x', 'i', 's', 't', 's']
}

/// The store's answer to recording a proof's `jti` says whether it was seen
/// before: the store refuses to create a document that already exists.
pub fn replay_outcome(recorded: Result<(), StoreError>) -> (r: Result<(), DpopError>)
    ensures
        match recorded {
            Ok(_) => r is Ok,
            Err(e) => if occurs_in(e.detail@, already_exists_marker()) {
                r matches Err(DpopError::Replayed)
            } else {
                r == Err::<(), DpopError>(DpopError::Firestore(e))
            },
        },
{
    match recorded {
        Ok(()) => Ok(()),
        Err(e) => {
            proof {
                reveal_strlit("AlreadyExists");
                assert("AlreadyExists"@ =~= already_exists_marker());
            }
            if contains_str(e.detail.as_str(), "AlreadyExists") {
                Err(DpopError::Replayed)
            } else {
                Err(DpopError::Firestore(e))
            }
        },
    }
}

/// The canonical JSON of an EC P-256 public key: its required members in
/// lexicographic order, no whitespace.
pub open spec fn canonical_jwk(x: Seq<char>, y: Seq<char>) -> Seq<char> {
    "{\"crv\":\"P-256\",\"kty\":\"EC\",\"x\":\""@ + x + "\",\"y\":\""@ + y + "\"}"@
}

/// The RFC 7638 thumbprint of an EC P-256 key.
pub open spec fn spec_jwk_thumbprint(x: Seq<char>, y: Seq<char>) -> Seq<char> {
    base64url_text(spec_sha256(vstd::utf8::encode_utf8(canonical_jwk(x, y))))
}

/// RFC 7638 JWK thumbprint for an EC P-256 key: SHA-256 of the canonical
/// JSON representation, with members in exactly this order (no whitespace).
pub fn jwk_thumbprint(x: &str, y: &str) -> (r: String)
    ensures
        r@ == spec_jwk_thumbprint(x@, y@),
        r@.len() == 43,
        forall|i: int| 0 <= i < r@.len() ==> is_base64url_char(#[trigger] r@[i]),
{
    let mut canonical = String::from_str("{\"crv\":\"P-256\",\"kty\":\"EC\",\"x\":\"");
    canonical.append(x);
    canonical.append("\",\"y\":\"");
    canonical.append(y);
    canonical.append("\"}");
    let digest = sha256(canonical.as_str().as_bytes());
    proof {
        lemma_base64url_text(digest@);
    }
    base64url(digest.as_slice())
}

/// The proof that a checked key, its proof not seen before, stands for.
pub fn verified_proof(key: &ProofKey) -> (r: VerifiedProof)
    ensures
        r.jkt@ == spec_jwk_thumbprint(key.x@, key.y@),
        r.jkt@.len() == 43,
{
    VerifiedProof { jkt: jwk_thumbprint(key.x.as_str(), key.y.as_str()) }
}

/// A proof passes its signature check only as signed by the key its own
/// header carries: its header decoded, named an ES256 P-256 key with the
/// accepted coordinates, and the signature verified under that key, over
/// the claims text handed on.
pub proof fn law_signed_by_its_header_key(proof: Seq<char>)
    requires
        signature_outcome(proof) is Ok,
    ensures
        ({
            let (x, y, claims) = signature_outcome(proof)->Ok_0;
            &&& spec_decoded_header(proof) matches Some(h) && header_outcome(h) == Ok::<(Seq<char>, Seq<char>), DpopError>((x, y))
            &&& spec_signed_claims(proof, x, y) == Some(claims)
        }),
{
}

/// Claims are checked method first, then URL, then freshness: they are
/// accepted at `now` exactly when they name the expected method and URL
/// and `iat` lies within `IAT_TOLERANCE_SECONDS` of `now` on either side,
/// and a proof dated too far in the past or in the future is refused as
/// stale.
pub proof fn law_claims_checked_in_order(c: DpopClaims, htm: Seq<char>, htu: Seq<char>, now: i64)
    ensures
        claims_outcome(c, htm, htu, now) is Ok <==> (c.htm@ == htm && c.htu@ == htu
            && now - IAT_TOLERANCE_SECONDS <= c.iat && c.iat <= now + IAT_TOLERANCE_SECONDS),
        c.htm@ != htm ==> claims_outcome(c, htm, htu, now) == Err::<(), DpopError>(DpopError::MethodMismatch),
        c.htm@ == htm && c.htu@ != htu ==> claims_outcome(c, htm, htu, now) == Err::<(), DpopError>(DpopError::UrlMismatch),
        c.htm@ == htm && c.htu@ == htu && (c.iat < now - IAT_TOLERANCE_SECONDS || c.iat > now + IAT_TOLERANCE_SECONDS)
            ==> claims_outcome(c, htm, htu, now) == Err::<(), DpopError>(DpopError::StaleProof),
{
}

/// A signed proof's claims are accepted only when they were read, name the
/// expected method and URL, and are fresh on both sides of `now`; then the
/// `jti` handed on is theirs. Claims that could not be read are refused
/// with what the reader reported, and claims that match the request but
/// are dated more than `IAT_TOLERANCE_SECONDS` before or after `now` are
/// refused as stale.
pub proof fn law_signed_claims_accepted_only_fresh(
    read: Result<DpopClaims, jsonwebtoken::errors::Error>,
    htm: Seq<char>,
    htu: Seq<char>,
    now: i64,
)
    ensures
        claims_read_outcome(read, htm, htu, now) is Ok ==> (read matches Ok(c) && (
            c.htm@ == htm && c.htu@ == htu
            && now - IAT_TOLERANCE_SECONDS <= c.iat && c.iat <= now + IAT_TOLERANCE_SECONDS
            && claims_read_outcome(read, htm, htu, now) == Ok::<Seq<char>, DpopError>(c.jti@))),
        read matches Err(e) ==> claims_read_outcome(read, htm, htu, now) == Err::<Seq<char>, DpopError>(DpopError::InvalidProof(e)),
        (read matches Ok(c) && (c.htm@ == htm && c.htu@ == htu
            && (c.iat < now - IAT_TOLERANCE_SECONDS || c.iat > now + IAT_TOLERANCE_SECONDS)))
            ==> claims_read_outcome(read, htm, htu, now) == Err::<Seq<char>, DpopError>(DpopError::StaleProof),
{
}

/// A proof is bound to one request: claims accepted for a method and URL
/// are refused for any other URL, and for any other method.
pub proof fn law_proof_bound_to_request(c: DpopClaims, htm: Seq<char>, htu: Seq<char>, now: i64, other: Seq<char>)
    requires
        claims_outcome(c, htm, htu, now) is Ok,
    ensures
        other != htu ==> claims_outcome(c, htm, other, now) == Err::<(), DpopError>(DpopError::UrlMismatch),
        other != htm ==> claims_outcome(c, other, htu, now) == Err::<(), DpopError>(DpopError::MethodMismatch),
{
}

/// Freshness is symmetric around the server's clock: a proof is accepted
/// exactly when its `iat` is within the tolerance of `now`, either side.
pub proof fn law_freshness_window(iat: i64, now: i64)
    ensures
        !is_stale(iat, now) <==> now - IAT_TOLERANCE_SECONDS <= iat <= now + IAT_TOLERANCE_SECONDS,
{
}

} // verus!
