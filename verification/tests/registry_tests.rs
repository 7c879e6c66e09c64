use account_lifecycle::error::AppError;
use account_lifecycle::login::{add_account, register_login};
use account_lifecycle::models::{Account, QuotaData, TokenData};
use account_lifecycle::oauth::TokenGrant;
use account_lifecycle::registry::AccountRegistry;
use account_lifecycle::token::TokenResponse;

fn token(access: &str) -> TokenData {
    TokenData::new(access.to_string(), "refresh".to_string(), 3600, None, 1_000, 300)
}

fn quota(used: u64, forbidden: bool) -> QuotaData {
    QuotaData { used, limit: 100, is_forbidden: forbidden, fetched_at: 50 }
}

fn account(id: &str, email: &str) -> Account {
    Account {
        id: id.to_string(),
        email: email.to_string(),
        display_name: None,
        token: token("t"),
        quota: None,
    }
}

#[test]
fn upsert_twice_with_one_email_keeps_one_account_and_its_id() {
    let mut r = AccountRegistry::new();
    let first = r
        .upsert("a@x.io".to_string(), Some("Ann".to_string()), token("t1"), "id-1".to_string())
        .unwrap();
    let second = r
        .upsert("a@x.io".to_string(), Some("Anna".to_string()), token("t2"), "id-2".to_string())
        .unwrap();
    assert_eq!(first.id, "id-1");
    assert_eq!(second.id, "id-1");
    let all = r.list_accounts();
    assert_eq!(all.len(), 1);
    assert_eq!(all[0].display_name, Some("Anna".to_string()));
    assert_eq!(all[0].token.access_token, "t2");
    assert_eq!(all[0], second);
}

#[test]
fn upsert_of_new_email_has_no_quota_and_the_fresh_id() {
    let mut r = AccountRegistry::new();
    let a = r.upsert("a@x.io".to_string(), None, token("t1"), "id-1".to_string()).unwrap();
    assert_eq!(a.quota, None);
    assert_eq!(a.id, "id-1");
    assert_eq!(a.email, "a@x.io");
    assert_eq!(r.current_id(), None);
}

#[test]
fn upsert_of_known_email_keeps_the_quota() {
    let mut r = AccountRegistry::new();
    r.upsert("a@x.io".to_string(), None, token("t1"), "id-1".to_string()).unwrap();
    r.update_quota(&"id-1".to_string(), quota(7, false)).unwrap();
    let again = r.upsert("a@x.io".to_string(), None, token("t2"), "id-9".to_string()).unwrap();
    assert_eq!(again.quota, Some(quota(7, false)));
    assert_eq!(again.id, "id-1");
}

#[test]
fn upsert_under_an_id_in_use_is_a_storage_error() {
    let mut r = AccountRegistry::new();
    r.upsert("a@x.io".to_string(), None, token("t1"), "id-1".to_string()).unwrap();
    let e = r.upsert("b@x.io".to_string(), None, token("t2"), "id-1".to_string());
    assert_eq!(e, Err(AppError::StorageError));
    assert_eq!(r.list_accounts().len(), 1);
    assert_eq!(r.list_accounts()[0].email, "a@x.io");
}

#[test]
fn deleting_the_current_account_clears_the_pointer() {
    let mut r = AccountRegistry::new();
    r.upsert("a@x.io".to_string(), None, token("t1"), "id-1".to_string()).unwrap();
    r.upsert("b@x.io".to_string(), None, token("t2"), "id-2".to_string()).unwrap();
    r.switch(&"id-2".to_string()).unwrap();
    assert_eq!(r.get_current().unwrap().email, "b@x.io");
    assert_eq!(r.delete(&"id-2".to_string()), Ok(()));
    assert_eq!(r.current_id(), None);
    assert_eq!(r.get_current(), None);
    assert_eq!(r.list_accounts().len(), 1);
    assert_eq!(r.list_accounts()[0].id, "id-1");
}

#[test]
fn deleting_another_account_keeps_the_pointer() {
    let mut r = AccountRegistry::new();
    r.upsert("a@x.io".to_string(), None, token("t1"), "id-1".to_string()).unwrap();
    r.upsert("b@x.io".to_string(), None, token("t2"), "id-2".to_string()).unwrap();
    r.switch(&"id-2".to_string()).unwrap();
    r.delete(&"id-1".to_string()).unwrap();
    assert_eq!(r.current_id(), Some("id-2".to_string()));
    assert_eq!(r.get_current().unwrap().id, "id-2");
}

#[test]
fn deleting_an_unknown_id_is_not_found() {
    let mut r = AccountRegistry::new();
    r.upsert("a@x.io".to_string(), None, token("t1"), "id-1".to_string()).unwrap();
    assert_eq!(r.delete(&"nope".to_string()), Err(AppError::NotFound));
    assert_eq!(r.list_accounts().len(), 1);
}

#[test]
fn switch_to_nonexistent_id_is_not_found_and_keeps_the_pointer() {
    let mut r = AccountRegistry::new();
    r.upsert("a@x.io".to_string(), None, token("t1"), "id-1".to_string()).unwrap();
    r.switch(&"id-1".to_string()).unwrap();
    assert_eq!(r.switch(&"nonexistent-id".to_string()), Err(AppError::NotFound));
    assert_eq!(r.current_id(), Some("id-1".to_string()));
    let mut empty = AccountRegistry::new();
    assert_eq!(empty.switch(&"nonexistent-id".to_string()), Err(AppError::NotFound));
    assert_eq!(empty.current_id(), None);
}

#[test]
fn get_current_on_an_empty_pointer_is_none() {
    let mut r = AccountRegistry::new();
    assert_eq!(r.get_current(), None);
    r.upsert("a@x.io".to_string(), None, token("t1"), "id-1".to_string()).unwrap();
    assert_eq!(r.get_current(), None);
}

#[test]
fn update_quota_replaces_the_quota_or_is_not_found() {
    let mut r = AccountRegistry::new();
    r.upsert("a@x.io".to_string(), None, token("t1"), "id-1".to_string()).unwrap();
    assert_eq!(r.update_quota(&"id-1".to_string(), quota(3, true)), Ok(()));
    assert_eq!(r.load_account(&"id-1".to_string()).unwrap().quota, Some(quota(3, true)));
    assert_eq!(r.update_quota(&"gone".to_string(), quota(3, true)), Err(AppError::NotFound));
    assert_eq!(r.load_account(&"gone".to_string()), Err(AppError::NotFound));
}

#[test]
fn restore_keeps_order_and_a_pointer_that_resolves() {
    let r = AccountRegistry::restore(
        vec![account("1", "a@x.io"), account("2", "b@x.io")],
        Some("2".to_string()),
    )
    .ok()
    .unwrap();
    assert_eq!(r.list_accounts(), vec![account("1", "a@x.io"), account("2", "b@x.io")]);
    assert_eq!(r.get_current(), Some(account("2", "b@x.io")));
}

#[test]
fn restore_drops_a_dangling_pointer() {
    let r = AccountRegistry::restore(vec![account("1", "a@x.io")], Some("7".to_string()))
        .ok()
        .unwrap();
    assert_eq!(r.current_id(), None);
    assert_eq!(r.get_current(), None);
}

#[test]
fn restore_refuses_duplicates() {
    let same_id = AccountRegistry::restore(vec![account("1", "a@x.io"), account("1", "b@x.io")], None);
    assert_eq!(same_id.err(), Some(AppError::StorageError));
    let same_email =
        AccountRegistry::restore(vec![account("1", "a@x.io"), account("2", "a@x.io")], None);
    assert_eq!(same_email.err(), Some(AppError::StorageError));
}

#[test]
fn add_account_keeps_the_refresh_token_that_was_given() {
    let mut r = AccountRegistry::new();
    let response = TokenResponse {
        access_token: "acc".to_string(),
        expires_in: 3600,
        refresh_token: Some("other".to_string()),
    };
    let a = add_account(
        &mut r,
        response,
        "given".to_string(),
        "a@x.io".to_string(),
        Some("Ann".to_string()),
        "id-1".to_string(),
        10_000,
        60,
    )
    .unwrap();
    assert_eq!(a.token.refresh_token, "given");
    assert_eq!(a.token.access_token, "acc");
    assert_eq!(a.token.expires_at, 13_540);
    assert_eq!(a.token.owner_email, Some("a@x.io".to_string()));
    assert_eq!(r.list_accounts(), vec![a]);
}

#[test]
fn add_account_refuses_a_lifetime_that_cannot_be_stored() {
    let mut r = AccountRegistry::new();
    let response =
        TokenResponse { access_token: "acc".to_string(), expires_in: i64::MAX, refresh_token: None };
    let e = add_account(
        &mut r,
        response,
        "given".to_string(),
        "a@x.io".to_string(),
        None,
        "id-1".to_string(),
        10_000,
        0,
    );
    assert_eq!(e, Err(AppError::AuthError));
    assert_eq!(r.list_accounts().len(), 0);
}

#[test]
fn register_login_stores_the_granted_tokens() {
    let mut r = AccountRegistry::new();
    let grant = TokenGrant {
        access_token: "acc".to_string(),
        refresh_token: "ref".to_string(),
        expires_in: 100,
    };
    let a = register_login(
        &mut r,
        grant,
        "a@x.io".to_string(),
        None,
        "id-1".to_string(),
        1_000,
        30,
    )
    .unwrap();
    assert_eq!(a.token.refresh_token, "ref");
    assert_eq!(a.token.expires_at, 1_070);
    assert_eq!(r.load_account(&"id-1".to_string()), Ok(a));
}

#[test]
fn update_quota_leaves_the_other_accounts_and_the_pointer() {
    let mut r = AccountRegistry::restore(
        vec![account("1", "a@x.io"), account("2", "b@x.io"), account("3", "c@x.io")],
        Some("3".to_string()),
    )
    .ok()
    .unwrap();
    r.update_quota(&"2".to_string(), quota(9, true)).unwrap();
    let all = r.list_accounts();
    assert_eq!(all[0], account("1", "a@x.io"));
    assert_eq!(all[1].id, "2");
    assert_eq!(all[1].email, "b@x.io");
    assert_eq!(all[1].quota, Some(quota(9, true)));
    assert_eq!(all[2], account("3", "c@x.io"));
    assert_eq!(r.current_id(), Some("3".to_string()));
}

#[test]
fn deleting_in_the_middle_keeps_the_order_of_the_rest() {
    let mut r = AccountRegistry::restore(
        vec![account("1", "a@x.io"), account("2", "b@x.io"), account("3", "c@x.io")],
        None,
    )
    .ok()
    .unwrap();
    r.delete(&"2".to_string()).unwrap();
    assert_eq!(r.list_accounts(), vec![account("1", "a@x.io"), account("3", "c@x.io")]);
    assert_eq!(r.delete(&"2".to_string()), Err(AppError::NotFound));
}
