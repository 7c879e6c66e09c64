use vstd::prelude::*;
use crate::error::AppError;
use crate::models::{TokenData, TokenView, text_of};

verus! {

/// What the token endpoint answers to a successful grant.
#[derive(Clone, Debug, PartialEq, Eq)]
pub struct TokenResponse {
    pub access_token: String,
    /// Lifetime of the access token in seconds, counted from the answer.
    pub expires_in: i64,
    pub refresh_token: Option<String>,
}

/// The expiry time recorded for a token granted at `now` with lifetime
/// `expires_in`: the skew is taken off so that a token is renewed before
/// the server would refuse it.
pub open spec fn expiry_time(now: int, expires_in: int, safety_skew: int) -> int {
    now + expires_in - safety_skew
}

/// Whether `expiry_time` of these arguments can be stored.
pub open spec fn expiry_fits(now: int, expires_in: int, safety_skew: int) -> bool {
    i64::MIN <= expiry_time(now, expires_in, safety_skew) <= i64::MAX
}

/// The refresh token kept after a renewal: the server's new one if it sent
/// a non-empty one, else the one used for the renewal.
pub open spec fn kept_refresh_token(previous: Seq<char>, sent: Option<Seq<char>>) -> Seq<char> {
    match sent {
        Some(t) => if t.len() > 0 { t } else { previous },
        None => previous,
    }
}

/// The token that results from a renewal of `previous` answered at `now`.
pub open spec fn renewed_token(
    previous: TokenView,
    access_token: Seq<char>,
    expires_in: int,
    sent_refresh: Option<Seq<char>>,
    now: int,
    safety_skew: int,
) -> TokenView {
    TokenView {
        access_token,
        refresh_token: kept_refresh_token(previous.refresh_token, sent_refresh),
        expires_at: expiry_time(now, expires_in, safety_skew),
        owner_email: previous.owner_email,
    }
}

/// Computes `now + expires_in - safety_skew`, or `None` where that leaves `i64`.
pub fn checked_expiry(now: i64, expires_in: i64, safety_skew: i64) -> (r: Option<i64>)
    ensures
        r is Some <==> expiry_fits(now as int, expires_in as int, safety_skew as int),
        r is Some
            ==> r->Some_0 as int == expiry_time(now as int, expires_in as int, safety_skew as int),
{
    let wide: i128 = now as i128 + expires_in as i128 - safety_skew as i128;
    if wide < i64::MIN as i128 || wide > i64::MAX as i128 {
        None
    } else {
        Some(wide as i64)
    }
}

impl TokenData {
    /// Builds the token of a fresh grant.
    pub fn new(
        access_token: String,
        refresh_token: String,
        expires_in: i64,
        owner_email: Option<String>,
        now: i64,
        safety_skew: i64,
    ) -> (t: TokenData)
        requires
            expiry_fits(now as int, expires_in as int, safety_skew as int),
        ensures
            t@ == (TokenView {
                access_token: access_token@,
                refresh_token: refresh_token@,
                expires_at: expiry_time(now as int, expires_in as int, safety_skew as int),
                owner_email: text_of(owner_email),
            }),
    {
        let expires_at = checked_expiry(now, expires_in, safety_skew).unwrap();
        TokenData { access_token, refresh_token, expires_at, owner_email }
    }

    /// True from the recorded expiry time on.
    pub fn needs_refresh(&self, now: i64) -> (b: bool)
        ensures
            b == (now >= self.expires_at),
    {
        now >= self.expires_at
    }

    /// Takes the outcome of a renewal into the token.
    ///
    /// A failed renewal, or one whose expiry cannot be stored, leaves the
    /// token as it was and reports the failure. A successful one replaces the
    /// access token and the expiry, and the refresh token only by a non-empty
    /// new one.
    pub fn apply_refresh(
        &mut self,
        outcome: Result<TokenResponse, AppError>,
        now: i64,
        safety_skew: i64,
    ) -> (r: Result<(), AppError>)
        ensures
            match outcome {
                Ok(resp) => if expiry_fits(now as int, resp.expires_in as int, safety_skew as int) {
                    r is Ok && final(self)@ == renewed_token(
                        old(self)@,
                        resp.access_token@,
                        resp.expires_in as int,
                        text_of(resp.refresh_token),
                        now as int,
                        safety_skew as int,
                    )
                } else {
                    r == Err::<(), AppError>(AppError::AuthError) && final(self)@ == old(self)@
                },
                Err(e) => r == Err::<(), AppError>(e) && final(self)@ == old(self)@,
            },
            old(self)@.refresh_token.len() > 0 ==> final(self)@.refresh_token.len() > 0,
    {
        match outcome {
            Err(e) => Err(e),
            Ok(resp) => {
                match checked_expiry(now, resp.expires_in, safety_skew) {
                    None => Err(AppError::AuthError),
                    Some(expires_at) => {
                        self.access_token = resp.access_token;
                        self.expires_at = expires_at;
                        match resp.refresh_token {
                            Some(t) => {
                                if t.as_str().unicode_len() > 0 {
                                    self.refresh_token = t;
                                }
                            },
                            None => {},
                        }
                        Ok(())
                    },
                }
            },
        }
    }
}

} // verus!
