use users::admin::{admit_admin, grant_collection_and_id, parse_target, AdminError, GrantTarget, ADMIN_FUNCTION_ID};
use users::check::{CheckError, FUNCTION_ID};
use users::clock::Timestamp;
use users::logon::{encode_credential_id, logon_username, require_username, pending_ceremony, pending_ceremony_at, AuthenticationSession, LogonError};
use users::logout::LogoutError;
use users::registration::{pending_registration_at, registration_names, require_names, RegistrationError, RegistrationSession};
use users::session::SessionError;
use users::store::{StoreError, UserId};

fn store_error(detail: &str) -> StoreError {
    StoreError { detail: detail.to_string() }
}

#[test]
fn exactly_one_grant_target_is_required() {
    assert!(matches!(parse_target(Some("g".to_string()), None), Ok(GrantTarget::Group(g)) if g == "g"));
    assert!(matches!(parse_target(None, Some(UserId(5))), Ok(GrantTarget::User(UserId(5)))));
    for r in [parse_target(Some("g".to_string()), Some(UserId(5))), parse_target(None, None)] {
        match r {
            Err(AdminError::BadRequest(m)) => assert_eq!(m, "exactly one of group_id or user_id is required"),
            other => panic!("unexpected {other:?}"),
        }
    }
}

#[test]
fn grants_live_under_groups_or_users() {
    let (c, id) = grant_collection_and_id(&GrantTarget::Group("eng".to_string()));
    assert_eq!((c, id.as_str()), ("groups", "eng"));
    let (c, id) = grant_collection_and_id(&GrantTarget::User(UserId(0x0123456789abcdef0fedcba987654321)));
    assert_eq!((c, id.as_str()), ("users", "01234567-89ab-cdef-0fed-cba987654321"));
}

#[test]
fn admin_requires_the_admin_grant() {
    assert_eq!(ADMIN_FUNCTION_ID, "admin");
    assert_eq!(admit_admin(UserId(3), true).unwrap(), UserId(3));
    assert!(matches!(admit_admin(UserId(3), false), Err(AdminError::Forbidden)));
}

#[test]
fn admin_errors_answer_with_their_status() {
    let cases = [
        (AdminError::MissingAuthorizationHeader, 401, "missing Authorization header"),
        (AdminError::MissingDpopProof, 400, "missing DPoP proof header"),
        (AdminError::Session(SessionError::KeyMismatch), 401, "invalid, expired, or unrecognized session"),
        (AdminError::AuthorizationServiceUnreachable("timeout".to_string()), 500, "internal error"),
        (AdminError::Forbidden, 403, "not authorized for the admin function"),
        (AdminError::BadRequest("bad".to_string()), 400, "bad"),
        (AdminError::Firestore(store_error("x")), 500, "internal error"),
    ];
    for (e, status, message) in cases {
        let r = e.into_response();
        assert_eq!((r.status, r.message.as_str()), (status, message));
    }
}

#[test]
fn logon_usernames_are_trimmed_and_lowercased() {
    assert_eq!(logon_username("  JoeJones\t").unwrap(), "joejones");
    assert_eq!(logon_username("\u{3000}ÉLODIE\u{a0}").unwrap(), "élodie");
    match logon_username(" \n ") {
        Err(LogonError::BadRequest(m)) => assert_eq!(m, "username is required"),
        other => panic!("unexpected {other:?}"),
    }
}

#[test]
fn registration_needs_both_names() {
    let (u, d) = registration_names(" Tester ", "  Test Er ").unwrap();
    assert_eq!((u.as_str(), d.as_str()), ("tester", "Test Er"));
    for (u, d) in [("", "x"), ("x", "   "), (" ", " ")] {
        match registration_names(u, d) {
            Err(RegistrationError::BadRequest(m)) => assert_eq!(m, "username and display_name are required"),
            other => panic!("unexpected {other:?}"),
        }
    }
}

#[test]
fn logon_ceremony_must_be_pending_and_fresh() {
    let at = Timestamp { secs: 1000, nanos: 0 };
    let s = AuthenticationSession::starting_at("state", UserId(1), Timestamp { secs: 700, nanos: 0 });
    assert_eq!(s.expires_at, at);
    assert!(!s.is_expired_at(at));
    assert!(pending_ceremony_at(Some(s), at).is_ok());
    let s = AuthenticationSession::starting_at("state", UserId(1), Timestamp { secs: 699, nanos: 0 });
    assert!(s.is_expired_at(at));
    assert!(matches!(pending_ceremony_at(Some(s), at), Err(LogonError::SessionExpired)));
    assert!(matches!(pending_ceremony_at::<()>(None, at), Err(LogonError::SessionNotFound)));
}

#[test]
fn a_new_logon_ceremony_is_not_expired() {
    let s = AuthenticationSession::new(5u8, UserId(2));
    assert!(!s.is_expired());
    assert_eq!(s.user_id, UserId(2));
    assert!(pending_ceremony(Some(s)).is_ok());
}

#[test]
fn registration_ceremony_must_be_pending_and_fresh() {
    let at = Timestamp { secs: 1000, nanos: 1 };
    let s = RegistrationSession::starting_at((), UserId(1), "u".to_string(), "U".to_string(), Timestamp { secs: 700, nanos: 0 });
    assert!(s.is_expired_at(at));
    assert!(matches!(pending_registration_at(Some(s), at), Err(RegistrationError::SessionExpired)));
    let s = RegistrationSession::new((), UserId(1), "u".to_string(), "U".to_string());
    assert!(!s.is_expired());
    assert_eq!(s.username, "u");
    assert!(matches!(pending_registration_at::<()>(None, at), Err(RegistrationError::SessionNotFound)));
}

#[test]
fn credential_ids_are_base64url() {
    assert_eq!(encode_credential_id(&[0, 1, 2, 250, 251, 255]), "AAEC-vv_");
}

#[test]
fn logon_errors_answer_with_their_status() {
    let cases = [
        (LogonError::UnknownUsername, 404, "unknown username"),
        (LogonError::NoCredentials, 500, "no credentials on file for this user"),
        (LogonError::SessionNotFound, 400, "unknown or already-used logon session"),
        (LogonError::SessionExpired, 400, "logon session expired"),
        (LogonError::BadRequest("username is required".to_string()), 400, "username is required"),
        (LogonError::Webauthn("bad signature".to_string()), 400, "logon ceremony failed"),
        (LogonError::Firestore(store_error("x")), 500, "internal error"),
    ];
    for (e, status, message) in cases {
        let r = e.into_response();
        assert_eq!((r.status, r.message.as_str()), (status, message));
    }
}

#[test]
fn registration_conflicts_answer_409() {
    let cases = [
        (RegistrationError::UsernameTaken, 409, "username already taken"),
        (RegistrationError::SessionNotFound, 400, "unknown or already-used registration session"),
        (RegistrationError::SessionExpired, 400, "registration session expired"),
        (RegistrationError::BadRequest("b".to_string()), 400, "b"),
        (RegistrationError::Webauthn("w".to_string()), 400, "registration ceremony failed"),
        (RegistrationError::Firestore(store_error("code: AlreadyExists")), 409, "username already taken"),
        (RegistrationError::Firestore(store_error("code: Unavailable")), 500, "internal error"),
    ];
    for (e, status, message) in cases {
        let r = e.into_response();
        assert_eq!((r.status, r.message.as_str()), (status, message));
    }
}

#[test]
fn logout_and_check_errors_answer_with_their_status() {
    let r = LogoutError::MissingAuthorizationHeader.into_response();
    assert_eq!((r.status, r.message.as_str()), (401, "missing Authorization header"));
    let r = LogoutError::MissingDpopProof.into_response();
    assert_eq!((r.status, r.message.as_str()), (400, "missing DPoP proof header"));
    let r = LogoutError::Session(SessionError::SessionExpired).into_response();
    assert_eq!((r.status, r.message.as_str()), (401, "invalid, expired, or unrecognized session"));
    let r = LogoutError::Firestore(store_error("x")).into_response();
    assert_eq!((r.status, r.message.as_str()), (500, "internal error"));
    assert_eq!(FUNCTION_ID, "check2");
    let r = CheckError::MissingAuthorizationHeader.into_response();
    assert_eq!((r.status, r.message.as_str()), (401, "missing Authorization header"));
    let r = CheckError::MissingDpopProof.into_response();
    assert_eq!(r.status, 400);
    let r = CheckError::Session(SessionError::SessionNotFound).into_response();
    assert_eq!(r.status, 401);
    let r = CheckError::AuthorizationServiceUnreachable("down".to_string()).into_response();
    assert_eq!((r.status, r.message.as_str()), (500, "internal error"));
}

#[test]
fn normalized_names_must_not_be_empty() {
    assert_eq!(require_username("joe".to_string()).unwrap(), "joe");
    assert!(matches!(require_username(String::new()), Err(LogonError::BadRequest(_))));
    assert_eq!(require_names("a".to_string(), "B".to_string()).unwrap(), ("a".to_string(), "B".to_string()));
    assert!(matches!(require_names("a".to_string(), String::new()), Err(RegistrationError::BadRequest(_))));
    assert!(matches!(require_names(String::new(), "B".to_string()), Err(RegistrationError::BadRequest(_))));
}
