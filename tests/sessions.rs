use teamwork::api::authentications::{login_plan, logout_plan, AuthenticationRequest};
use teamwork::api::plan::{Expect, Stamps};
use teamwork::authentication::{Authentication, AuthenticationError};
use teamwork::passwords::hash_password;
use teamwork::session::{login_action, login_statement, session_expiry, LoginAction, SESSION_LIFETIME};
use teamwork::token::{RawToken, VerifiedToken};

fn session(id: &str, user: &str, token: &str, expires_at: Option<i64>) -> Authentication {
    Authentication {
        id: id.to_string(),
        user_id: user.to_string(),
        token: token.to_string(),
        expires_at,
        created_at: Some(0),
        updated_at: Some(0),
        archived_at: None,
    }
}

fn is_uuid_v4(s: &str) -> bool {
    let c: Vec<char> = s.chars().collect();
    c.len() == 36
        && c.iter().enumerate().all(|(i, ch)| {
            if i == 8 || i == 13 || i == 18 || i == 23 {
                *ch == '-'
            } else {
                ch.is_ascii_hexdigit() && !ch.is_ascii_uppercase()
            }
        })
        && c[14] == '4'
        && "89ab".contains(c[19])
}

#[test]
fn bearer_header_parsing() {
    assert_eq!(RawToken::from_header(Some("Bearer abc")).value, "abc");
    assert_eq!(RawToken::from_header(Some("Bearer abc def")).value, "abc");
    assert_eq!(RawToken::from_header(Some("Bearer")).value, "");
    assert_eq!(RawToken::from_header(Some("Bearer ")).value, "");
    assert_eq!(RawToken::from_header(None).value, "");
}

#[test]
fn token_lookup_query_text() {
    let q = RawToken { value: "tok".to_string() }.lookup_query();
    assert_eq!(
        q.sql,
        "SELECT * FROM authentications WHERE token = $1 ORDER BY created_at ASC LIMIT 1"
    );
}

#[test]
fn verified_token_new_keeps_fields() {
    let v = VerifiedToken::new("t".to_string(), "u".to_string(), Some(5));
    assert_eq!(v.raw_token, Some("t".to_string()));
    assert_eq!(v.user_id, "u");
    assert_eq!(v.expires_at, Some(5));
}

#[test]
fn live_token_verifies() {
    let raw = RawToken { value: "tok".to_string() };
    let v = VerifiedToken::from_raw(raw, Some(session("s1", "u1", "tok", Some(100))), 100).unwrap();
    assert_eq!(v.user_id, "u1");
    assert_eq!(v.raw_token, Some("tok".to_string()));
    assert_eq!(v.expires_at, Some(100));
}

#[test]
fn expired_token_is_rejected_even_when_it_matches() {
    let raw = RawToken { value: "tok".to_string() };
    let r = VerifiedToken::from_raw(raw, Some(session("s1", "u1", "tok", Some(99))), 100);
    assert!(matches!(r, Err(AuthenticationError::TokenExpired)));
    let raw = RawToken { value: "tok".to_string() };
    let r = VerifiedToken::from_raw(raw, Some(session("s1", "u1", "tok", None)), 100);
    assert!(matches!(r, Err(AuthenticationError::TokenExpired)));
}

#[test]
fn missing_or_foreign_token_is_invalid() {
    let r = VerifiedToken::from_raw(RawToken { value: "tok".to_string() }, None, 0);
    assert!(matches!(r, Err(AuthenticationError::InvalidToken)));
    let r = VerifiedToken::from_raw(
        RawToken { value: "tok".to_string() },
        Some(session("s1", "u1", "other", Some(100))),
        0,
    );
    assert!(matches!(r, Err(AuthenticationError::InvalidToken)));
    let r = VerifiedToken::from_raw(
        RawToken { value: String::new() },
        Some(session("s1", "u1", "", Some(100))),
        0,
    );
    assert!(matches!(r, Err(AuthenticationError::InvalidToken)));
}

#[test]
fn first_login_creates_second_reuses() {
    assert!(matches!(login_action(&vec![], 10), LoginAction::Create));
    let created = session("s1", "u1", "tok", Some(10 + SESSION_LIFETIME));
    match login_action(&vec![created], 20) {
        LoginAction::Refresh(id) => assert_eq!(id, "s1"),
        LoginAction::Create => panic!("a live session must be reused"),
    }
}

#[test]
fn login_skips_expired_sessions() {
    let old = session("s0", "u1", "a", Some(5));
    let live = session("s1", "u1", "b", Some(50));
    match login_action(&vec![old.clone(), live], 20) {
        LoginAction::Refresh(id) => assert_eq!(id, "s1"),
        LoginAction::Create => panic!("the live session must be reused"),
    }
    assert!(matches!(login_action(&vec![old], 20), LoginAction::Create));
}

#[test]
fn login_statement_inserts_with_random_token() {
    let q = login_statement(&"u1".to_string(), &vec![], 0, &"now".to_string(), &"later".to_string());
    assert!(q.sql.starts_with("INSERT INTO authentications (user_id, token, id, created_at, updated_at, expires_at)"));
    let token = q.binds[1].bind_text().unwrap();
    let id = q.binds[2].bind_text().unwrap();
    assert!(is_uuid_v4(&token));
    assert!(is_uuid_v4(&id));
    assert_ne!(token, id);
}

#[test]
fn login_statement_refreshes_live_session() {
    let live = session("s1", "u1", "b", Some(50));
    let q = login_statement(&"u1".to_string(), &vec![live], 20, &"now".to_string(), &"later".to_string());
    assert_eq!(
        q.sql,
        "UPDATE authentications SET updated_at = CAST($1 AS TIMESTAMP), expires_at = CAST($2 AS TIMESTAMP) WHERE id = $3 RETURNING *"
    );
    assert_eq!(q.binds[2].bind_text(), Some("s1".to_string()));
}

#[test]
fn session_expiry_is_thirty_days() {
    assert_eq!(SESSION_LIFETIME, 2592000);
    assert_eq!(session_expiry(1000), Some(1000 + 2592000));
    assert_eq!(session_expiry(i64::MAX), None);
}

#[test]
fn login_looks_up_user_by_hashed_password() {
    let steps = login_plan(&AuthenticationRequest {
        username: "alice".to_string(),
        password: "secret".to_string(),
    });
    assert_eq!(steps.len(), 1);
    assert_eq!(
        steps[0].query.sql,
        "SELECT * FROM users WHERE archived_at IS NULL AND username = $1 AND password_hash = $2 ORDER BY created_at ASC LIMIT 1"
    );
    assert_eq!(steps[0].query.binds[1].bind_text(), Some(hash_password("secret")));
    assert_eq!(steps[0].status, 404);
    assert_eq!(steps[0].expect, Expect::One);
}

#[test]
fn password_hash_is_sha512_hex() {
    assert_eq!(
        hash_password("secret"),
        "bd2b1aaf7ef4f09be9f52ce2d8d599674d81aa9d6a4421696dc4d93dd0619d682ce56b4d64a9ef097761ced99e0f67265b5f76085e5b0ee7ca4696b2ad6fe2b2"
    );
}

#[test]
fn logout_deletes_the_session() {
    let stamps = Stamps { now: "now".to_string(), expires: "later".to_string() };
    let steps = logout_plan(&"tok".to_string(), &stamps);
    assert_eq!(steps[0].query.sql, "DELETE FROM authentications WHERE token = $1");
    assert_eq!(steps[0].status, 500);
}
