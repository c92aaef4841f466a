use whatsapp_web_shared_backend::application::auth_service::{
    begin_code_request, begin_code_request_at, begin_code_verification, check_session_at,
    code_for_draw, generate_magic_code, hash_code, hash_for_log, mint_session, mint_session_at,
    session_with_token_bytes,
    session_expiry_in_range,
    session_user, user_from_row, verify_code_hash, AuthPolicy, CodeRow, SessionRow,
    UserResolution, UserRow,
};
use whatsapp_web_shared_backend::clock::MIN_MICROS;
use whatsapp_web_shared_backend::error::{AppError, AuthReason};
use whatsapp_web_shared_backend::storage::{code_insert, instant_text, uuid_text};

const JAN_2024: i64 = 1_704_067_200_000_000;
const HOUR: i64 = 3_600_000_000;

fn policy() -> AuthPolicy {
    AuthPolicy { rate_limit_codes_per_hour: 5, auth_code_ttl_secs: 300, session_ttl_days: 30 }
}

#[test]
fn smoke_hash_roundtrip() {
    let code = generate_magic_code();
    let h = hash_code(code.expose()).unwrap();
    assert!(verify_code_hash(code.expose(), &h));
    assert!(!verify_code_hash("000000", &h) || code.expose() == "000000");
}

#[test]
fn generated_code_is_six_digits() {
    let c = generate_magic_code();
    assert_eq!(c.expose().len(), 6);
    assert!(c.expose().chars().all(|ch| ch.is_ascii_digit()));
}

#[test]
fn garbage_hash_is_not_accepted() {
    assert!(!verify_code_hash("123456", "not-a-phc-string"));
    assert!(!verify_code_hash("123456", ""));
}

#[test]
fn log_tag_is_fnv1a_hex() {
    assert_eq!(hash_for_log(""), "cbf29ce484222325");
    assert_eq!(hash_for_log("a"), "af63dc4c8601ec8c");
    assert_eq!(hash_for_log("foo@bar.com").len(), 16);
    assert_eq!(hash_for_log("foo@bar.com"), hash_for_log("foo@bar.com"));
}

#[test]
fn code_request_validates_and_opens_the_window() {
    match begin_code_request_at("nope", JAN_2024) {
        Err(AppError::Validation(m)) => assert_eq!(m, "email must contain '@'"),
        other => panic!("unexpected {:?}", other.map(|q| q.since)),
    }
    let q = begin_code_request_at(" A@B.c ", JAN_2024).unwrap();
    assert_eq!(q.email.as_str(), "a@b.c");
    assert_eq!(q.since, JAN_2024 - HOUR);
    assert_eq!(q.requested_at, JAN_2024);
    match begin_code_request_at("a@b.c", MIN_MICROS + 5) {
        Err(AppError::Internal(m)) => assert_eq!(m, "clock skew"),
        _ => panic!("expected clock skew"),
    }
    assert!(begin_code_request("a@b.c").is_ok());
}

#[test]
fn rate_limit_refuses_at_the_limit() {
    let q = begin_code_request_at("a@b.c", JAN_2024).unwrap();
    assert!(matches!(q.issue(5, &policy()), Err(AppError::RateLimited)));
    let q = begin_code_request_at("a@b.c", JAN_2024).unwrap();
    assert!(matches!(q.issue(9, &policy()), Err(AppError::RateLimited)));
    // `recent as u32` wraps: 2^32 + 1 counts as 1
    let q = begin_code_request_at("a@b.c", JAN_2024).unwrap();
    assert!(q.issue((1i64 << 32) + 1, &policy()).is_ok());
}

#[test]
fn issued_code_verifies_until_expiry() {
    let q = begin_code_request_at("User@Example.com", JAN_2024).unwrap();
    assert!(q.expiry_in_range(&policy()));
    let issued = q.issue(4, &policy()).unwrap();
    assert_eq!(issued.record.email, "user@example.com");
    assert_eq!(issued.record.created_at, JAN_2024);
    assert_eq!(issued.record.expires_at, JAN_2024 + 300_000_000);
    assert!(!issued.record.consumed);
    assert_ne!(issued.record.code_hash, issued.code.expose());
    let stored = code_insert(&issued.record);
    let row = || CodeRow {
        id: stored.id.clone(),
        code_hash: stored.code_hash.clone(),
        expires_at: stored.expires_at.clone(),
    };

    let v = begin_code_verification("user@example.com", issued.code.expose()).unwrap();
    let ok = v.check_at(Some(row()), JAN_2024 + 300_000_000).unwrap();
    assert_eq!(ok.code_id, stored.id);
    assert_eq!(ok.email.as_str(), "user@example.com");

    let v = begin_code_verification("user@example.com", issued.code.expose()).unwrap();
    assert!(matches!(
        v.check_at(Some(row()), JAN_2024 + 300_000_001),
        Err(AppError::Auth(AuthReason::ExpiredCode))
    ));

    let wrong = if issued.code.expose() == "000000" { "111111" } else { "000000" };
    let v = begin_code_verification("user@example.com", wrong).unwrap();
    assert!(matches!(
        v.check_at(Some(row()), JAN_2024),
        Err(AppError::Auth(AuthReason::InvalidCode))
    ));

    let v = begin_code_verification("user@example.com", issued.code.expose()).unwrap();
    assert!(matches!(v.check_at(None, JAN_2024), Err(AppError::Auth(AuthReason::InvalidCode))));

    // a wrong code on an expired row is invalid, not expired
    let v = begin_code_verification("user@example.com", wrong).unwrap();
    assert!(matches!(
        v.check_at(Some(row()), JAN_2024 + 300_000_001),
        Err(AppError::Auth(AuthReason::InvalidCode))
    ));

    // the code itself is no PHC string: stored as the hash, it is refused
    let v = begin_code_verification("user@example.com", issued.code.expose()).unwrap();
    let plain = CodeRow {
        id: "x".into(),
        code_hash: issued.code.expose().into(),
        expires_at: stored.expires_at.clone(),
    };
    assert!(matches!(v.check_at(Some(plain), JAN_2024), Err(AppError::Auth(AuthReason::InvalidCode))));

    let v = begin_code_verification("user@example.com", issued.code.expose()).unwrap();
    let bad = CodeRow { id: "x".into(), code_hash: stored.code_hash.clone(), expires_at: "yesterday".into() };
    match v.check_at(Some(bad), JAN_2024) {
        Err(AppError::Internal(m)) => assert_eq!(m, "bad expires_at in db"),
        _ => panic!("expected internal error"),
    }
}

#[test]
fn verification_start_errors() {
    assert!(matches!(begin_code_verification("", "123456"), Err(AppError::Validation(_))));
    assert!(matches!(
        begin_code_verification("a@b.c", "12345"),
        Err(AppError::Auth(AuthReason::InvalidCode))
    ));
}

#[test]
fn user_resolution_and_rows() {
    let q = begin_code_request_at("new@user.io", JAN_2024).unwrap();
    let issued = q.issue(0, &policy()).unwrap();
    let stored = code_insert(&issued.record);
    let v = begin_code_verification("new@user.io", issued.code.expose()).unwrap();
    let verified = v
        .check_at(
            Some(CodeRow {
                id: stored.id.clone(),
                code_hash: stored.code_hash.clone(),
                expires_at: stored.expires_at.clone(),
            }),
            JAN_2024,
        )
        .unwrap();
    match verified.resolve_user_at(None, JAN_2024 + 7).unwrap() {
        UserResolution::Created(u) => {
            assert_eq!(u.email, "new@user.io");
            assert_eq!(u.created_at, JAN_2024 + 7);
            assert_eq!((u.id >> 76) & 0xf, 4);
        }
        UserResolution::Existing(_) => panic!("expected a new user"),
    }
    let existing = UserRow {
        id: "a1a2a3a4-b1b2-c1c2-d1d2-d3d4d5d6d7d8".into(),
        email: "new@user.io".into(),
        created_at: "2024-01-01T00:00:00Z".into(),
    };
    match verified.resolve_user_at(Some(existing), JAN_2024).unwrap() {
        UserResolution::Existing(u) => {
            assert_eq!(u.id, 0xa1a2a3a4b1b2c1c2d1d2d3d4d5d6d7d8);
            assert_eq!(u.created_at, JAN_2024);
        }
        UserResolution::Created(_) => panic!("expected the existing user"),
    }
    let bad = UserRow { id: "zz".into(), email: "e@x".into(), created_at: "2024-01-01T00:00:00Z".into() };
    assert!(matches!(user_from_row(bad), Err(AppError::Internal(_))));
}

#[test]
fn minted_session_and_checks() {
    assert!(session_expiry_in_range(JAN_2024, 30));
    let s = mint_session_at(7, 30, JAN_2024);
    assert_eq!(s.user_id, 7);
    assert_eq!(s.token.len(), 64);
    assert!(s.token.chars().all(|c| c.is_ascii_hexdigit() && !c.is_ascii_uppercase()));
    assert_eq!(s.expires_at, JAN_2024 + 30 * 86_400_000_000);
    let other = mint_session_at(7, 30, JAN_2024);
    assert_ne!(s.token, other.token);

    let row = |exp: i64| SessionRow { user_id: uuid_text(7), expires_at: instant_text(exp) };
    assert_eq!(check_session_at(Some(row(JAN_2024)), JAN_2024).unwrap(), uuid_text(7));
    assert!(matches!(
        check_session_at(Some(row(JAN_2024)), JAN_2024 + 1),
        Err(AppError::Auth(AuthReason::SessionExpired))
    ));
    assert!(matches!(check_session_at(None, JAN_2024), Err(AppError::Auth(AuthReason::NoSession))));
    assert!(matches!(session_user(None), Err(AppError::Auth(AuthReason::NoSession))));
    let u = session_user(Some(UserRow {
        id: uuid_text(7),
        email: "a@b.c".into(),
        created_at: instant_text(JAN_2024),
    }))
    .unwrap();
    assert_eq!((u.id, u.created_at), (7, JAN_2024));
    let later = UserRow { id: uuid_text(7), email: "a@b.c".into(), created_at: instant_text(JAN_2024 + 123) };
    assert_eq!(user_from_row(later).unwrap().created_at, JAN_2024 + 123);
}

#[test]
fn minted_session_now() {
    let s = mint_session(9, 30).unwrap();
    assert_eq!(s.user_id, 9);
    assert_eq!(s.expires_at - s.created_at, 30 * 86_400_000_000);
    assert_eq!(s.token.len(), 64);
    assert!(mint_session(9, u32::MAX).is_none());
}

#[test]
fn code_is_the_draw_modulo_a_million() {
    assert_eq!(code_for_draw(123).expose(), "000123");
    assert_eq!(code_for_draw(1_000_123).expose(), "000123");
    assert_eq!(code_for_draw(u32::MAX).expose(), "967295");
    assert_eq!(code_for_draw(999_999).expose(), "999999");
}

#[test]
fn token_is_the_hex_of_its_bytes() {
    let s = session_with_token_bytes(3, &[0xab, 0x01, 0x00, 0xff], 1, JAN_2024);
    assert_eq!(s.token, "ab0100ff");
    assert_eq!((s.user_id, s.created_at, s.expires_at), (3, JAN_2024, JAN_2024 + 86_400_000_000));
    assert_eq!(session_with_token_bytes(3, &[0u8; 32], 1, JAN_2024).token, "0".repeat(64));
}

#[test]
fn stored_hash_is_default_argon2id() {
    let h = hash_code("123456").unwrap();
    assert!(h.starts_with("$argon2id$v=19$m=19456,t=2,p=1$"));
    assert!(verify_code_hash("123456", &h));
    assert!(!verify_code_hash("123456", "123456"));
    assert!(!verify_code_hash("123456", ""));
}
