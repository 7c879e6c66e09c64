use account_lifecycle::error::AppError;
use account_lifecycle::models::TokenData;
use account_lifecycle::token::{checked_expiry, TokenResponse};

fn stored() -> TokenData {
    TokenData::new("old-access".to_string(), "old-refresh".to_string(), 3600, Some("a@x.io".to_string()), 1_000, 300)
}

#[test]
fn expiry_is_now_plus_lifetime_minus_skew() {
    assert_eq!(stored().expires_at, 4_300);
    assert_eq!(checked_expiry(1_000, 3600, 300), Some(4_300));
    assert_eq!(checked_expiry(0, 10, 60), Some(-50));
}

#[test]
fn expiry_outside_the_range_is_none() {
    assert_eq!(checked_expiry(i64::MAX, 1, 0), None);
    assert_eq!(checked_expiry(i64::MIN, 0, 1), None);
    assert_eq!(checked_expiry(i64::MAX, 1, 1), Some(i64::MAX));
}

#[test]
fn needs_refresh_from_the_expiry_time_on() {
    let t = stored();
    assert!(!t.needs_refresh(4_299));
    assert!(t.needs_refresh(4_300));
    assert!(t.needs_refresh(4_301));
}

#[test]
fn failed_refresh_leaves_the_token_untouched() {
    let mut t = stored();
    assert_eq!(t.apply_refresh(Err(AppError::AuthError), 2_000, 300), Err(AppError::AuthError));
    assert_eq!(t, stored());
    assert_eq!(t.apply_refresh(Err(AppError::NetworkError), 2_000, 300), Err(AppError::NetworkError));
    assert_eq!(t, stored());
}

#[test]
fn refresh_without_new_refresh_token_keeps_the_old_one() {
    let mut t = stored();
    let resp = TokenResponse { access_token: "new".to_string(), expires_in: 100, refresh_token: None };
    assert_eq!(t.apply_refresh(Ok(resp), 5_000, 10), Ok(()));
    assert_eq!(t.access_token, "new");
    assert_eq!(t.refresh_token, "old-refresh");
    assert_eq!(t.expires_at, 5_090);
    assert_eq!(t.owner_email, Some("a@x.io".to_string()));
}

#[test]
fn refresh_never_stores_an_empty_refresh_token() {
    let mut t = stored();
    let resp = TokenResponse {
        access_token: "new".to_string(),
        expires_in: 100,
        refresh_token: Some(String::new()),
    };
    assert_eq!(t.apply_refresh(Ok(resp), 5_000, 10), Ok(()));
    assert_eq!(t.refresh_token, "old-refresh");
}

#[test]
fn refresh_takes_a_new_refresh_token() {
    let mut t = stored();
    let resp = TokenResponse {
        access_token: "new".to_string(),
        expires_in: 100,
        refresh_token: Some("rotated".to_string()),
    };
    assert_eq!(t.apply_refresh(Ok(resp), 5_000, 10), Ok(()));
    assert_eq!(t.refresh_token, "rotated");
}

#[test]
fn refresh_with_a_lifetime_that_cannot_be_stored_changes_nothing() {
    let mut t = stored();
    let resp = TokenResponse { access_token: "new".to_string(), expires_in: i64::MAX, refresh_token: None };
    assert_eq!(t.apply_refresh(Ok(resp), 5_000, 0), Err(AppError::AuthError));
    assert_eq!(t, stored());
}

#[test]
fn every_error_has_its_message() {
    assert_eq!(AppError::NetworkError.message(), "network error");
    assert_eq!(AppError::AuthError.message(), "authentication failed");
    assert_eq!(AppError::StateMismatch.message(), "state token mismatch");
    assert_eq!(AppError::Timeout.message(), "timed out");
    assert_eq!(AppError::NotFound.message(), "account not found");
    assert_eq!(AppError::Forbidden.message(), "access forbidden");
    assert_eq!(AppError::StorageError.message(), "storage failure");
}
