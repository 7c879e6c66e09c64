use account_lifecycle::batch::{BatchRun, RefreshStats};
use account_lifecycle::error::AppError;
use account_lifecycle::models::{Account, QuotaData, TokenData};
use account_lifecycle::quota::{
    backoff_delay_ms, FetchAction, FetchPhase, FetchSession, QueryResult, RetryPolicy,
};
use account_lifecycle::registry::AccountRegistry;
use account_lifecycle::token::TokenResponse;

fn policy() -> RetryPolicy {
    RetryPolicy { max_retries: 3, base_delay_ms: 500 }
}

fn token() -> TokenData {
    TokenData::new("access".to_string(), "refresh".to_string(), 3600, None, 1_000, 300)
}

fn account(id: &str, email: &str, quota: Option<QuotaData>) -> Account {
    Account { id: id.to_string(), email: email.to_string(), display_name: None, token: token(), quota }
}

fn forbidden() -> QuotaData {
    QuotaData { used: 1, limit: 2, is_forbidden: true, fetched_at: 5 }
}

fn fresh(used: u64, now: i64) -> QuotaData {
    QuotaData { used, limit: 100, is_forbidden: false, fetched_at: now }
}

#[test]
fn backoff_doubles_from_the_base_delay() {
    assert_eq!(backoff_delay_ms(500, 0), 500);
    assert_eq!(backoff_delay_ms(500, 1), 1_000);
    assert_eq!(backoff_delay_ms(500, 3), 4_000);
    assert_eq!(backoff_delay_ms(0, 10), 0);
}

#[test]
fn backoff_is_held_at_the_largest_value() {
    assert_eq!(backoff_delay_ms(u64::MAX / 2 + 1, 1), u64::MAX);
    assert_eq!(backoff_delay_ms(u64::MAX / 2, 1), u64::MAX - 1);
    assert_eq!(backoff_delay_ms(1, 64), u64::MAX);
    assert_eq!(backoff_delay_ms(1, 63), 1u64 << 63);
}

#[test]
fn usage_ends_the_fetch_with_a_quota() {
    let mut s = FetchSession::start(policy());
    let a = s.on_query_result(QueryResult::Usage { used: 40, limit: 100 }, 77);
    assert_eq!(a, FetchAction::Deliver(fresh(40, 77)));
    assert!(s.is_finished());
}

#[test]
fn denial_ends_the_fetch_with_a_forbidden_quota() {
    let mut s = FetchSession::start(policy());
    let a = s.on_query_result(QueryResult::Forbidden, 77);
    assert_eq!(
        a,
        FetchAction::Deliver(QuotaData { used: 0, limit: 0, is_forbidden: true, fetched_at: 77 })
    );
    assert!(s.is_finished());
}

#[test]
fn transient_failures_are_retried_up_to_the_bound() {
    let mut s = FetchSession::start(policy());
    assert_eq!(s.on_query_result(QueryResult::TransientFailure, 1), FetchAction::Query { delay_ms: 500 });
    assert_eq!(s.on_query_result(QueryResult::TransientFailure, 2), FetchAction::Query { delay_ms: 1_000 });
    assert_eq!(s.on_query_result(QueryResult::TransientFailure, 3), FetchAction::Query { delay_ms: 2_000 });
    assert!(!s.is_finished());
    assert_eq!(s.on_query_result(QueryResult::TransientFailure, 4), FetchAction::Fail(AppError::NetworkError));
    assert!(s.is_finished());
    assert_eq!(s.on_query_result(QueryResult::TransientFailure, 5), FetchAction::Nothing);
}

#[test]
fn no_retries_with_a_bound_of_zero() {
    let mut s = FetchSession::start(RetryPolicy { max_retries: 0, base_delay_ms: 500 });
    assert_eq!(s.on_query_result(QueryResult::TransientFailure, 1), FetchAction::Fail(AppError::NetworkError));
}

#[test]
fn expired_token_is_renewed_once_and_a_second_auth_failure_is_final() {
    let mut s = FetchSession::start(policy());
    let mut t = token();
    assert_eq!(s.on_query_result(QueryResult::AuthFailure, 10), FetchAction::Refresh);
    assert_eq!(s.phase, FetchPhase::Refreshing);
    let resp = TokenResponse { access_token: "new".to_string(), expires_in: 100, refresh_token: None };
    assert_eq!(s.on_refresh_result(&mut t, Ok(resp), 20, 5), FetchAction::Query { delay_ms: 0 });
    assert_eq!(t.access_token, "new");
    assert_eq!(t.expires_at, 115);
    assert_eq!(s.phase, FetchPhase::Retrying);
    assert_eq!(s.on_query_result(QueryResult::AuthFailure, 30), FetchAction::Fail(AppError::AuthError));
    assert!(s.is_finished());
    assert_eq!(s.on_query_result(QueryResult::AuthFailure, 40), FetchAction::Nothing);
}

#[test]
fn after_the_renewal_a_transient_failure_is_final_too() {
    let mut s = FetchSession::start(policy());
    let mut t = token();
    s.on_query_result(QueryResult::AuthFailure, 10);
    let resp = TokenResponse { access_token: "new".to_string(), expires_in: 100, refresh_token: None };
    s.on_refresh_result(&mut t, Ok(resp), 20, 5);
    assert_eq!(s.on_query_result(QueryResult::TransientFailure, 30), FetchAction::Fail(AppError::NetworkError));
}

#[test]
fn failed_renewal_ends_the_fetch_and_keeps_the_token() {
    let mut s = FetchSession::start(policy());
    let mut t = token();
    s.on_query_result(QueryResult::AuthFailure, 10);
    assert_eq!(
        s.on_refresh_result(&mut t, Err(AppError::AuthError), 20, 5),
        FetchAction::Fail(AppError::AuthError)
    );
    assert_eq!(t, token());
    assert!(s.is_finished());
}

#[test]
fn renewal_outcome_out_of_turn_is_ignored() {
    let mut s = FetchSession::start(policy());
    let mut t = token();
    let resp = TokenResponse { access_token: "new".to_string(), expires_in: 100, refresh_token: None };
    assert_eq!(s.on_refresh_result(&mut t, Ok(resp), 20, 5), FetchAction::Nothing);
    assert_eq!(t, token());
    assert_eq!(s, FetchSession::start(policy()));
}

fn registry_of(accounts: &Vec<Account>) -> AccountRegistry {
    AccountRegistry::restore(accounts.clone(), None).ok().unwrap()
}

#[test]
fn batch_over_valid_forbidden_and_expired_accounts() {
    let accounts = vec![
        account("a", "a@x.io", None),
        account("b", "b@x.io", Some(forbidden())),
        account("c", "c@x.io", Some(fresh(1, 1))),
    ];
    let mut registry = registry_of(&accounts);
    let mut run = BatchRun::start(accounts);

    let first = run.pending().unwrap();
    assert_eq!(first.id, "a");
    let mut s = FetchSession::start(policy());
    let quota_a = match s.on_query_result(QueryResult::Usage { used: 10, limit: 100 }, 1_000) {
        FetchAction::Deliver(q) => q,
        other => panic!("unexpected action {:?}", other),
    };
    run.record(&mut registry, Ok(quota_a));

    let mut third = run.pending().unwrap();
    assert_eq!(third.id, "c");
    let mut s = FetchSession::start(policy());
    assert_eq!(s.on_query_result(QueryResult::AuthFailure, 1_001), FetchAction::Refresh);
    let resp = TokenResponse { access_token: "new".to_string(), expires_in: 100, refresh_token: None };
    assert_eq!(
        s.on_refresh_result(&mut third.token, Ok(resp), 1_002, 0),
        FetchAction::Query { delay_ms: 0 }
    );
    let quota_c = match s.on_query_result(QueryResult::Usage { used: 20, limit: 100 }, 1_003) {
        FetchAction::Deliver(q) => q,
        other => panic!("unexpected action {:?}", other),
    };
    run.record(&mut registry, Ok(quota_c));

    assert!(run.is_done());
    assert_eq!(run.pending(), None);
    let stats = run.finish();
    assert_eq!(stats, RefreshStats { total: 2, success: 2, failed: 0, details: vec![] });
    assert_eq!(registry.load_account(&"a".to_string()).unwrap().quota, Some(fresh(10, 1_000)));
    assert_eq!(registry.load_account(&"b".to_string()).unwrap(), account("b", "b@x.io", Some(forbidden())));
    assert_eq!(registry.load_account(&"c".to_string()).unwrap().quota, Some(fresh(20, 1_003)));
}

#[test]
fn batch_counts_only_accounts_that_are_not_forbidden() {
    let accounts = vec![
        account("a", "a@x.io", Some(forbidden())),
        account("b", "b@x.io", None),
        account("c", "c@x.io", Some(forbidden())),
        account("d", "d@x.io", None),
        account("e", "e@x.io", Some(forbidden())),
    ];
    let mut registry = registry_of(&accounts);
    let mut run = BatchRun::start(accounts);
    let mut seen = Vec::new();
    while let Some(next) = run.pending() {
        seen.push(next.id.clone());
        if next.id == "b" {
            run.record(&mut registry, Ok(fresh(3, 9)));
        } else {
            run.record(&mut registry, Err(AppError::Timeout));
        }
    }
    assert_eq!(seen, vec!["b".to_string(), "d".to_string()]);
    let stats = run.finish();
    assert_eq!(stats.total, 2);
    assert_eq!(stats.success, 1);
    assert_eq!(stats.failed, 1);
    assert_eq!(stats.details, vec!["Account d@x.io: Fetch quota failed - timed out".to_string()]);
}

#[test]
fn batch_goes_on_after_a_failure() {
    let accounts = vec![account("a", "a@x.io", None), account("b", "b@x.io", None)];
    let mut registry = registry_of(&accounts);
    let mut run = BatchRun::start(accounts);
    run.record(&mut registry, Err(AppError::NetworkError));
    assert_eq!(run.pending().unwrap().id, "b");
    run.record(&mut registry, Ok(fresh(5, 6)));
    let stats = run.finish();
    assert_eq!(
        stats,
        RefreshStats {
            total: 2,
            success: 1,
            failed: 1,
            details: vec!["Account a@x.io: Fetch quota failed - network error".to_string()],
        }
    );
    assert_eq!(registry.load_account(&"a".to_string()).unwrap().quota, None);
    assert_eq!(registry.load_account(&"b".to_string()).unwrap().quota, Some(fresh(5, 6)));
}

#[test]
fn batch_records_a_quota_that_could_not_be_stored() {
    let accounts = vec![account("a", "a@x.io", None)];
    let mut registry = AccountRegistry::new();
    let mut run = BatchRun::start(accounts);
    run.record(&mut registry, Ok(fresh(5, 6)));
    let stats = run.finish();
    assert_eq!(
        stats,
        RefreshStats {
            total: 1,
            success: 0,
            failed: 1,
            details: vec!["Account a@x.io: Save quota failed - account not found".to_string()],
        }
    );
}

#[test]
fn batch_over_nothing_is_done_at_once() {
    let mut registry = AccountRegistry::new();
    let mut run = BatchRun::start(vec![account("a", "a@x.io", Some(forbidden()))]);
    assert!(run.is_done());
    run.record(&mut registry, Ok(fresh(5, 6)));
    assert_eq!(run.finish(), RefreshStats { total: 0, success: 0, failed: 0, details: vec![] });
    assert_eq!(BatchRun::start(vec![]).finish().total, 0);
}
