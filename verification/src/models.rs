use vstd::prelude::*;

verus! {

/// Usage figures of one account as last reported by the remote service.
#[derive(Clone, Copy, Debug, PartialEq, Eq, Structural)]
pub struct QuotaData {
    pub used: u64,
    pub limit: u64,
    /// Sticky: while set, batch refreshes pass the account over.
    pub is_forbidden: bool,
    pub fetched_at: i64,
}

/// The credentials of one account.
#[derive(Clone, Debug, PartialEq, Eq)]
pub struct TokenData {
    pub access_token: String,
    pub refresh_token: String,
    /// Absolute time, in seconds, from which the access token counts as expired.
    pub expires_at: i64,
    pub owner_email: Option<String>,
}

/// The mathematical value of a [`TokenData`].
pub ghost struct TokenView {
    pub access_token: Seq<char>,
    pub refresh_token: Seq<char>,
    pub expires_at: int,
    pub owner_email: Option<Seq<char>>,
}

/// One registered account.
#[derive(Clone, Debug, PartialEq, Eq)]
pub struct Account {
    pub id: String,
    pub email: String,
    pub display_name: Option<String>,
    pub token: TokenData,
    pub quota: Option<QuotaData>,
}

/// The mathematical value of an [`Account`].
pub ghost struct AccountView {
    pub id: Seq<char>,
    pub email: Seq<char>,
    pub display_name: Option<Seq<char>>,
    pub token: TokenView,
    pub quota: Option<QuotaData>,
}

/// The text held by an optional string, if any.
pub open spec fn text_of(s: Option<String>) -> Option<Seq<char>> {
    match s {
        Some(t) => Some(t@),
        None => None,
    }
}

/// Copies an optional string.
pub fn copy_text(s: &Option<String>) -> (r: Option<String>)
    ensures
        text_of(r) == text_of(*s),
{
    match s {
        Some(t) => Some(t.clone()),
        None => None,
    }
}

impl View for TokenData {
    type V = TokenView;

    open spec fn view(&self) -> TokenView {
        TokenView {
            access_token: self.access_token@,
            refresh_token: self.refresh_token@,
            expires_at: self.expires_at as int,
            owner_email: text_of(self.owner_email),
        }
    }
}

impl TokenData {
    /// A copy with the same value.
    pub fn duplicate(&self) -> (r: TokenData)
        ensures
            r@ == self@,
    {
        TokenData {
            access_token: self.access_token.clone(),
            refresh_token: self.refresh_token.clone(),
            expires_at: self.expires_at,
            owner_email: copy_text(&self.owner_email),
        }
    }
}

impl View for Account {
    type V = AccountView;

    open spec fn view(&self) -> AccountView {
        AccountView {
            id: self.id@,
            email: self.email@,
            display_name: text_of(self.display_name),
            token: self.token@,
            quota: self.quota,
        }
    }
}

impl Account {
    /// A copy with the same value.
    pub fn duplicate(&self) -> (r: Account)
        ensures
            r@ == self@,
    {
        Account {
            id: self.id.clone(),
            email: self.email.clone(),
            display_name: copy_text(&self.display_name),
            token: self.token.duplicate(),
            quota: self.quota,
        }
    }

    /// Whether a batch refresh passes this account over.
    pub open spec fn skipped_in_batch(v: AccountView) -> bool {
        v.quota is Some && v.quota->Some_0.is_forbidden
    }

    pub fn is_forbidden(&self) -> (b: bool)
        ensures
            b == Self::skipped_in_batch(self@),
    {
        match self.quota {
            Some(q) => q.is_forbidden,
            None => false,
        }
    }
}

} // verus!
