use railways_backend::error::ApiError;
use railways_backend::ids::parse_identity_id;
use railways_backend::model::{SessionRow, UserRow};
use railways_backend::session::{
    accept_callback, create_session, get_user_info, login_step, new_session, resolve_session,
    revoke_session, rotate_session, rotate_session_at, session_id_from_cookie, LoginStep, TokenGrant,
};

fn grant(a: &str, r: &str, secs: i64) -> TokenGrant {
    TokenGrant { access_token: a.to_string(), refresh_token: r.to_string(), expires_in: secs }
}

fn row(id: u128, user: i64, expires_at: i64, expired: bool) -> SessionRow {
    SessionRow {
        session_id: id,
        user_id: user,
        access_token: "acc".to_string(),
        refresh_token: "ref".to_string(),
        expires_at,
        expired,
    }
}

fn user_row(id: i64, admin: bool, banned: bool) -> UserRow {
    UserRow {
        discord_id: id,
        minecraft_uuid: Some(5),
        created_at: 10,
        last_updated: 20,
        is_admin: admin,
        banned,
    }
}

#[test]
fn cookie_with_uuid_gives_its_value() {
    let r = session_id_from_cookie(Some("67e55044-10b1-426f-9247-bb680e5fe0c8"));
    assert_eq!(r, Ok(0x67e5504410b1426f9247bb680e5fe0c8));
}

#[test]
fn cookie_malformed_or_missing_is_not_found() {
    assert_eq!(session_id_from_cookie(Some("not-a-uuid")), Err(ApiError::NotFound));
    assert_eq!(session_id_from_cookie(Some("")), Err(ApiError::NotFound));
    assert_eq!(session_id_from_cookie(None), Err(ApiError::NotFound));
}

#[test]
fn resolve_returns_stored_user_flags() {
    let s = resolve_session(Some(row(1, 123, 100, false)), Some(user_row(123, true, true))).unwrap();
    assert_eq!(s.user.discord_id, 123);
    assert!(s.user.is_admin);
    assert!(s.user.banned);
    assert_eq!(s.user.created_at, Some(10));
    assert_eq!(s.user.last_updated, Some(20));
    assert_eq!(s.user.minecraft_uuid, Some(5));
    assert_eq!(s.session_id, 1);
    assert_eq!(s.access_token, "acc");
    assert_eq!(s.refresh_token, "ref");
    assert_eq!(s.expires_at, 100);
    assert!(!s.expired);
}

#[test]
fn resolve_missing_rows_is_not_found() {
    assert_eq!(resolve_session(None, Some(user_row(1, false, false))).unwrap_err(), ApiError::NotFound);
    assert_eq!(resolve_session(Some(row(1, 1, 0, false)), None).unwrap_err(), ApiError::NotFound);
    assert_eq!(
        resolve_session(Some(row(1, 1, 0, false)), Some(user_row(2, false, false))).unwrap_err(),
        ApiError::NotFound
    );
}

#[test]
fn login_with_live_session_rotates() {
    let stored = row(1, 123, 100, false);
    match login_step(Some(&stored), 50) {
        LoginStep::Rotate { session_id, refresh_token } => {
            assert_eq!(session_id, 1);
            assert_eq!(refresh_token, "ref");
        }
        LoginStep::Consent => panic!("expected rotation"),
    }
}

#[test]
fn login_without_live_session_asks_consent() {
    assert!(matches!(login_step(None, 50), LoginStep::Consent));
    assert!(matches!(login_step(Some(&row(1, 1, 100, true)), 50), LoginStep::Consent));
    assert!(matches!(login_step(Some(&row(1, 1, 100, false)), 100), LoginStep::Consent));
}

#[test]
fn rotation_marks_old_expired_and_uses_new_id() {
    let mut stored = row(1, 123, 100, false);
    let fresh = rotate_session_at(&mut stored, grant("a2", "r2", 60), 50, 2).unwrap();
    assert!(stored.expired);
    assert_eq!(stored.session_id, 1);
    assert_eq!(fresh.session_id, 2);
    assert_eq!(fresh.user_id, 123);
    assert_eq!(fresh.access_token, "a2");
    assert_eq!(fresh.refresh_token, "r2");
    assert_eq!(fresh.expires_at, 110);
    assert!(!fresh.expired);
}

#[test]
fn rotation_refuses_reused_id() {
    let mut stored = row(1, 123, 100, false);
    assert_eq!(rotate_session_at(&mut stored, grant("a", "r", 60), 50, 1).unwrap_err(), ApiError::BadRequest);
    assert!(stored.expired);
}

#[test]
fn rotation_now_draws_a_distinct_id() {
    let mut stored = row(1, 123, i64::MAX, false);
    let fresh = rotate_session(&mut stored, grant("a", "r", 60)).unwrap();
    assert!(stored.expired);
    assert_ne!(fresh.session_id, 1);
    assert_eq!(fresh.user_id, 123);
}

#[test]
fn rotation_with_zero_lifetime_always_succeeds() {
    let mut stored = row(1, 123, i64::MAX, false);
    let fresh = rotate_session(&mut stored, grant("a", "r", 0)).unwrap();
    assert_ne!(fresh.session_id, 1);
    assert!(stored.expired);
    assert!(create_session(7, grant("a", "r", 0)).is_ok());
    assert!(create_session(7, grant("a", "r", 31_536_000)).is_ok());
    assert!(create_session(7, grant("a", "r", -60)).is_ok());
}

#[test]
fn new_session_expiry_is_now_plus_lifetime() {
    let s = new_session(7, grant("a", "r", 604800), 1_700_000_000, 9).unwrap();
    assert_eq!(s.expires_at, 1_700_604_800);
    assert_eq!(s.session_id, 9);
    assert!(!s.expired);
    assert_eq!(new_session(7, grant("a", "r", 1), i64::MAX, 9).unwrap_err(), ApiError::BadRequest);
}

#[test]
fn created_sessions_get_random_ids_and_current_expiry() {
    let a = create_session(7, grant("a", "r", 3600)).unwrap();
    let b = create_session(7, grant("a", "r", 3600)).unwrap();
    assert_ne!(a.session_id, b.session_id);
    assert!(a.expires_at > 1_600_000_000 + 3600);
    assert_eq!(a.user_id, 7);
}

#[test]
fn revoke_live_session_returns_both_tokens() {
    let mut stored = row(1, 123, 100, false);
    let tokens = revoke_session(&mut stored, 50).unwrap();
    assert_eq!(tokens, vec!["acc".to_string(), "ref".to_string()]);
    assert!(stored.expired);
}

#[test]
fn revoke_dead_session_is_unauthenticated() {
    let mut stored = row(1, 123, 100, false);
    assert_eq!(revoke_session(&mut stored, 100).unwrap_err(), ApiError::Unauthenticated);
    assert!(!stored.expired);
}

#[test]
fn callback_checks_lifetime_and_id() {
    assert_eq!(accept_callback(Some(604800), "80351110224678912"), Ok((80351110224678912, 604800)));
    assert_eq!(accept_callback(None, "1"), Err(ApiError::BadRequest));
    assert_eq!(accept_callback(Some(1), "12a"), Err(ApiError::BadRequest));
    assert_eq!(accept_callback(Some(1), "-5"), Ok((-5, 1)));
    assert_eq!(accept_callback(Some(1), "+5"), Ok((5, 1)));
}

#[test]
fn identity_ids_are_plain_decimal() {
    assert_eq!(parse_identity_id("0"), Some(0));
    assert_eq!(parse_identity_id("9223372036854775807"), Some(i64::MAX));
    assert_eq!(parse_identity_id("9223372036854775808"), None);
    assert_eq!(parse_identity_id(""), None);
    assert_eq!(parse_identity_id("-1"), Some(-1));
    assert_eq!(parse_identity_id("+5"), Some(5));
    assert_eq!(parse_identity_id("-9223372036854775808"), Some(i64::MIN));
    assert_eq!(parse_identity_id("-9223372036854775809"), None);
    assert_eq!(parse_identity_id("+"), None);
    assert_eq!(parse_identity_id("-"), None);
    assert_eq!(parse_identity_id("--1"), None);
    assert_eq!(parse_identity_id("1 "), None);
}

#[test]
fn user_info_needs_a_session() {
    assert_eq!(get_user_info(None, 50), Err(ApiError::Unauthenticated));
    let s = resolve_session(Some(row(1, 123, 100, false)), Some(user_row(123, false, false))).unwrap();
    assert_eq!(get_user_info(Some(&s), 50).unwrap(), s.user);
    assert_eq!(get_user_info(Some(&s), 100), Err(ApiError::Unauthenticated));
    let dead = resolve_session(Some(row(1, 123, 100, true)), Some(user_row(123, false, false))).unwrap();
    assert_eq!(get_user_info(Some(&dead), 50), Err(ApiError::Unauthenticated));
}
