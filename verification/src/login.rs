use vstd::prelude::*;
use crate::error::AppError;
use crate::models::{Account, TokenData, TokenView, text_of};
use crate::oauth::TokenGrant;
use crate::registry::AccountRegistry;
use crate::token::{TokenResponse, checked_expiry, expiry_fits, expiry_time};

verus! {

/// The token stored for `email` from tokens granted at `now`.
pub open spec fn registered_token(
    access_token: Seq<char>,
    refresh_token: Seq<char>,
    expires_in: i64,
    email: Seq<char>,
    now: i64,
    safety_skew: i64,
) -> TokenView {
    TokenView {
        access_token,
        refresh_token,
        expires_at: expiry_time(now as int, expires_in as int, safety_skew as int),
        owner_email: Some(email),
    }
}

fn register_tokens(
    registry: &mut AccountRegistry,
    access_token: String,
    refresh_token: String,
    expires_in: i64,
    email: String,
    display_name: Option<String>,
    fresh_id: String,
    now: i64,
    safety_skew: i64,
) -> (r: Result<Account, AppError>)
    requires
        old(registry).wf(),
    ensures
        final(registry).wf(),
        !expiry_fits(now as int, expires_in as int, safety_skew as int) ==> final(registry)@
            == old(registry)@ && r == Err::<Account, AppError>(AppError::AuthError),
        expiry_fits(now as int, expires_in as int, safety_skew as int) ==> {
            let token = registered_token(
                access_token@,
                refresh_token@,
                expires_in,
                email@,
                now,
                safety_skew,
            );
            &&& final(registry)@ == old(registry)@.upsert(
                email@,
                text_of(display_name),
                token,
                fresh_id@,
            )
            &&& match r {
                Ok(account) => !old(registry)@.upsert_rejected(email@, fresh_id@) && account@
                    == old(registry)@.upserted(email@, text_of(display_name), token, fresh_id@),
                Err(e) => old(registry)@.upsert_rejected(email@, fresh_id@) && e
                    == AppError::StorageError,
            }
        },
{
    match checked_expiry(now, expires_in, safety_skew) {
        None => Err(AppError::AuthError),
        Some(_) => {
            let owner = Some(email.clone());
            let token = TokenData::new(
                access_token,
                refresh_token,
                expires_in,
                owner,
                now,
                safety_skew,
            );
            registry.upsert(email, display_name, token, fresh_id)
        },
    }
}

/// Adds the account that a refresh token belongs to, or renews it where the
/// email is registered already. `response` is what the token endpoint
/// answered to a renewal with `refresh_token` at `now`, and `email` and
/// `display_name` are what the service reports of the token's owner. The
/// stored token keeps the refresh token that was given, whatever the
/// endpoint sent. A lifetime whose expiry cannot be stored is refused with
/// `AuthError`, and the registry stays as it was.
pub fn add_account(
    registry: &mut AccountRegistry,
    response: TokenResponse,
    refresh_token: String,
    email: String,
    display_name: Option<String>,
    fresh_id: String,
    now: i64,
    safety_skew: i64,
) -> (r: Result<Account, AppError>)
    requires
        old(registry).wf(),
    ensures
        final(registry).wf(),
        !expiry_fits(now as int, response.expires_in as int, safety_skew as int)
            ==> final(registry)@ == old(registry)@
            && r == Err::<Account, AppError>(AppError::AuthError),
        expiry_fits(now as int, response.expires_in as int, safety_skew as int) ==> {
            let token = registered_token(
                response.access_token@,
                refresh_token@,
                response.expires_in,
                email@,
                now,
                safety_skew,
            );
            &&& final(registry)@ == old(registry)@.upsert(
                email@,
                text_of(display_name),
                token,
                fresh_id@,
            )
            &&& match r {
                Ok(account) => !old(registry)@.upsert_rejected(email@, fresh_id@) && account@
                    == old(registry)@.upserted(email@, text_of(display_name), token, fresh_id@),
                Err(e) => old(registry)@.upsert_rejected(email@, fresh_id@) && e
                    == AppError::StorageError,
            }
        },
{
    register_tokens(
        registry,
        response.access_token,
        refresh_token,
        response.expires_in,
        email,
        display_name,
        fresh_id,
        now,
        safety_skew,
    )
}

/// Registers the account of a completed login: `grant` is what the flow
/// controller handed over at `now`, and `email` and `display_name` are what
/// the service reports of the owner. A lifetime whose expiry cannot be
/// stored is refused with `AuthError`, and the registry stays as it was.
pub fn register_login(
    registry: &mut AccountRegistry,
    grant: TokenGrant,
    email: String,
    display_name: Option<String>,
    fresh_id: String,
    now: i64,
    safety_skew: i64,
) -> (r: Result<Account, AppError>)
    requires
        old(registry).wf(),
    ensures
        final(registry).wf(),
        !expiry_fits(now as int, grant.expires_in as int, safety_skew as int)
            ==> final(registry)@ == old(registry)@
            && r == Err::<Account, AppError>(AppError::AuthError),
        expiry_fits(now as int, grant.expires_in as int, safety_skew as int) ==> {
            let token = registered_token(
                grant.access_token@,
                grant.refresh_token@,
                grant.expires_in,
                email@,
                now,
                safety_skew,
            );
            &&& final(registry)@ == old(registry)@.upsert(
                email@,
                text_of(display_name),
                token,
                fresh_id@,
            )
            &&& match r {
                Ok(account) => !old(registry)@.upsert_rejected(email@, fresh_id@) && account@
                    == old(registry)@.upserted(email@, text_of(display_name), token, fresh_id@),
                Err(e) => old(registry)@.upsert_rejected(email@, fresh_id@) && e
                    == AppError::StorageError,
            }
        },
{
    register_tokens(
        registry,
        grant.access_token,
        grant.refresh_token,
        grant.expires_in,
        email,
        display_name,
        fresh_id,
        now,
        safety_skew,
    )
}

} // verus!
