use session_lock::error::Error;
use session_lock::session::{session_token, session_ttl_ms, UserInfo, UserRecord};
use session_lock::store::StoreModel;

fn alice() -> UserRecord {
    UserRecord { id: 42, username: "alice".to_string(), role: 0 }
}

fn principal() -> String {
    "{\"id\":42,\"username\":\"alice\",\"role\":0}".to_string()
}

#[test]
fn session_token_exact_shape() {
    assert_eq!(session_token(42, 99), "Session:42:99");
    assert_eq!(session_token(0, 0), "Session:0:0");
    assert_eq!(session_token(-7, 1700000000), "Session:-7:1700000000");
}

#[test]
fn tokens_differ_per_user_and_salt() {
    assert_ne!(session_token(1, 7), session_token(2, 7));
    assert_ne!(session_token(1, 7), session_token(1, 8));
    assert_ne!(session_token(12, 3), session_token(1, 23));
    assert_ne!(session_token(-1, 2), session_token(1, 2));
}

#[test]
fn session_ttl_is_one_hour() {
    assert_eq!(session_ttl_ms(), 3_600_000);
}

#[test]
fn create_then_resolve_returns_principal() {
    let mut store = StoreModel::new();
    let user = UserInfo::login_at(&mut store, alice(), &principal(), 7, 0);
    assert_eq!(user.token, "Session:42:7");
    assert_eq!(user.user_db, alice());
    let resolved = UserInfo::from_token(&store, &user.token, 1).unwrap();
    assert_eq!(resolved, principal());
}

#[test]
fn login_uses_clock_salt() {
    let mut store = StoreModel::new();
    let user = UserInfo::login(&mut store, alice(), &principal(), 0);
    assert!(user.token.starts_with("Session:42:"));
    let resolved = UserInfo::from_token(&store, &user.token, 100).unwrap();
    assert_eq!(resolved, principal());
}

#[test]
fn session_expires_after_ttl() {
    let mut store = StoreModel::new();
    let user = UserInfo::login_at(&mut store, alice(), &principal(), 7, 0);
    assert!(UserInfo::from_token(&store, &user.token, 3_599_999).is_ok());
    let late = UserInfo::from_token(&store, &user.token, 3_600_000);
    assert_eq!(late, Err(Error::NotLogin));
}

#[test]
fn refresh_slides_the_expiry_window() {
    let mut store = StoreModel::new();
    let user = UserInfo::login_at(&mut store, alice(), &principal(), 7, 0);
    // Refresh shortly before natural expiry; the session must then outlive
    // the original window, which it would not have without the refresh.
    user.refresh_session(&mut store, &principal(), 3_000_000);
    let past_original_expiry = UserInfo::from_token(&store, &user.token, 3_700_000);
    assert_eq!(past_original_expiry, Ok(principal()));
    assert_eq!(
        UserInfo::from_token(&store, &user.token, 6_600_000),
        Err(Error::NotLogin)
    );
}

#[test]
fn refresh_scenario_with_short_window() {
    // The same sliding-expiry behaviour on the raw store, with the short
    // TTL the scenario names: created with 200ms, refreshed at 150ms,
    // still resolvable at 300ms.
    let mut store = StoreModel::new();
    let token = "Session:1:1".to_string();
    let blob = "p".to_string();
    store.set_px(&token, &blob, 200, 0);
    store.set_px(&token, &blob, 200, 150);
    assert_eq!(store.get(&token, 300), Some(blob.clone()));
    assert_eq!(store.get(&token, 350), None);
}

#[test]
fn revoke_then_resolve_is_not_login() {
    let mut store = StoreModel::new();
    let user = UserInfo::login_at(&mut store, alice(), &principal(), 7, 0);
    user.logout(&mut store);
    assert_eq!(UserInfo::from_token(&store, &user.token, 1), Err(Error::NotLogin));
    // Revoking twice is not an error.
    user.logout(&mut store);
    assert_eq!(UserInfo::from_token(&store, &user.token, 2), Err(Error::NotLogin));
}

#[test]
fn never_issued_and_expired_tokens_are_indistinguishable() {
    let mut store = StoreModel::new();
    let user = UserInfo::login_at(&mut store, alice(), &principal(), 7, 0);
    let at = 4_000_000;  // past expiry
    let expired = UserInfo::from_token(&store, &user.token, at);
    let never_issued = UserInfo::from_token(&store, &"Session:9:9".to_string(), at);
    assert_eq!(expired, never_issued);
    assert_eq!(expired, Err(Error::NotLogin));
}

#[test]
fn admin_is_role_zero() {
    let mut store = StoreModel::new();
    let admin = UserInfo::login_at(&mut store, alice(), &principal(), 1, 0);
    assert!(admin.is_admin());
    let plain = UserInfo::login_at(
        &mut store,
        UserRecord { id: 7, username: "bob".to_string(), role: 1 },
        &principal(),
        1,
        0,
    );
    assert!(!plain.is_admin());
}
