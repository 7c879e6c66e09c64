use vstd::prelude::*;
use crate::error::AppError;
use crate::models::{Account, AccountView, QuotaData, TokenData, TokenView, copy_text, text_of};

verus! {

/// The values of a list of accounts, in order.
pub open spec fn views(accounts: Seq<Account>) -> Seq<AccountView> {
    Seq::new(accounts.len(), |i: int| accounts[i]@)
}

/// Whether some account carries `id`.
pub open spec fn has_id(accounts: Seq<AccountView>, id: Seq<char>) -> bool {
    exists|i: int| 0 <= i < accounts.len() && (#[trigger] accounts[i]).id == id
}

/// The position of an account that carries `id`, where there is one.
pub open spec fn index_of_id(accounts: Seq<AccountView>, id: Seq<char>) -> int {
    choose|i: int| 0 <= i < accounts.len() && (#[trigger] accounts[i]).id == id
}

/// Whether some account is registered under `email`.
pub open spec fn has_email(accounts: Seq<AccountView>, email: Seq<char>) -> bool {
    exists|i: int| 0 <= i < accounts.len() && (#[trigger] accounts[i]).email == email
}

/// The position of an account registered under `email`, where there is one.
pub open spec fn index_of_email(accounts: Seq<AccountView>, email: Seq<char>) -> int {
    choose|i: int| 0 <= i < accounts.len() && (#[trigger] accounts[i]).email == email
}

/// No id occurs on two accounts.
pub open spec fn distinct_ids(accounts: Seq<AccountView>) -> bool {
    forall|i: int, j: int|
        0 <= i < j < accounts.len() ==> (#[trigger] accounts[i]).id != (#[trigger] accounts[j]).id
}

/// No email occurs on two accounts.
pub open spec fn distinct_emails(accounts: Seq<AccountView>) -> bool {
    forall|i: int, j: int|
        0 <= i < j < accounts.len()
            ==> (#[trigger] accounts[i]).email != (#[trigger] accounts[j]).email
}

/// The mathematical value of an [`AccountRegistry`]: the accounts in the
/// order of their registration, and the id that the current-account pointer
/// holds, if any.
pub ghost struct RegistryView {
    pub accounts: Seq<AccountView>,
    pub current: Option<Seq<char>>,
}

impl RegistryView {
    /// Emails and ids are unique, and the pointer names a stored account.
    pub open spec fn wf(self) -> bool {
        &&& distinct_ids(self.accounts)
        &&& distinct_emails(self.accounts)
        &&& self.current is Some ==> has_id(self.accounts, self.current->Some_0)
    }

    /// An upsert is refused only where it would have to create an account
    /// under an id that another account already carries.
    pub open spec fn upsert_rejected(self, email: Seq<char>, fresh_id: Seq<char>) -> bool {
        !has_email(self.accounts, email) && has_id(self.accounts, fresh_id)
    }

    /// The account that an accepted upsert stores: the one registered under
    /// `email` with name and token replaced, or a new one under `fresh_id`
    /// without quota.
    pub open spec fn upserted(
        self,
        email: Seq<char>,
        display_name: Option<Seq<char>>,
        token: TokenView,
        fresh_id: Seq<char>,
    ) -> AccountView {
        if has_email(self.accounts, email) {
            let known = self.accounts[index_of_email(self.accounts, email)];
            AccountView { id: known.id, email, display_name, token, quota: known.quota }
        } else {
            AccountView { id: fresh_id, email, display_name, token, quota: None }
        }
    }

    /// The registry after an upsert.
    pub open spec fn upsert(
        self,
        email: Seq<char>,
        display_name: Option<Seq<char>>,
        token: TokenView,
        fresh_id: Seq<char>,
    ) -> RegistryView {
        let stored = self.upserted(email, display_name, token, fresh_id);
        if has_email(self.accounts, email) {
            RegistryView {
                accounts: self.accounts.update(index_of_email(self.accounts, email), stored),
                current: self.current,
            }
        } else if has_id(self.accounts, fresh_id) {
            self
        } else {
            RegistryView { accounts: self.accounts.push(stored), current: self.current }
        }
    }

    /// The registry after the account with `id` was deleted: the account is
    /// gone, and with it a pointer that named it.
    pub open spec fn delete(self, id: Seq<char>) -> RegistryView {
        if has_id(self.accounts, id) {
            RegistryView {
                accounts: self.accounts.remove(index_of_id(self.accounts, id)),
                current: if self.current == Some(id) {
                    None
                } else {
                    self.current
                },
            }
        } else {
            self
        }
    }

    /// The registry after a switch to `id`.
    pub open spec fn switch(self, id: Seq<char>) -> RegistryView {
        if has_id(self.accounts, id) {
            RegistryView { accounts: self.accounts, current: Some(id) }
        } else {
            self
        }
    }

    /// The registry after the quota of the account with `id` was replaced.
    pub open spec fn update_quota(self, id: Seq<char>, quota: QuotaData) -> RegistryView {
        if has_id(self.accounts, id) {
            let i = index_of_id(self.accounts, id);
            let known = self.accounts[i];
            RegistryView {
                accounts: self.accounts.update(
                    i,
                    AccountView {
                        id: known.id,
                        email: known.email,
                        display_name: known.display_name,
                        token: known.token,
                        quota: Some(quota),
                    },
                ),
                current: self.current,
            }
        } else {
            self
        }
    }

    /// The account with `id`, if it is stored.
    pub open spec fn lookup(self, id: Seq<char>) -> Option<AccountView> {
        if has_id(self.accounts, id) {
            Some(self.accounts[index_of_id(self.accounts, id)])
        } else {
            None
        }
    }

    /// The account that the pointer resolves to, if any.
    pub open spec fn current_account(self) -> Option<AccountView> {
        match self.current {
            Some(id) => self.lookup(id),
            None => None,
        }
    }
}

/// In a list with unique ids, an account's id determines its position.
pub proof fn lemma_index_of_id(accounts: Seq<AccountView>, i: int)
    requires
        distinct_ids(accounts),
        0 <= i < accounts.len(),
    ensures
        has_id(accounts, accounts[i].id),
        index_of_id(accounts, accounts[i].id) == i,
{
    let j = index_of_id(accounts, accounts[i].id);
    assert(accounts[j].id == accounts[i].id);
    if j < i {
        assert(accounts[j].id != accounts[i].id);
    }
    if i < j {
        assert(accounts[i].id != accounts[j].id);
    }
}

/// In a list with unique emails, an account's email determines its position.
pub proof fn lemma_index_of_email(accounts: Seq<AccountView>, i: int)
    requires
        distinct_emails(accounts),
        0 <= i < accounts.len(),
    ensures
        has_email(accounts, accounts[i].email),
        index_of_email(accounts, accounts[i].email) == i,
{
    let j = index_of_email(accounts, accounts[i].email);
    assert(accounts[j].email == accounts[i].email);
    if j < i {
        assert(accounts[j].email != accounts[i].email);
    }
    if i < j {
        assert(accounts[i].email != accounts[j].email);
    }
}

/// The store of accounts with its current-account pointer. All changes go
/// through `&mut self`, so no two of them overlap.
pub struct AccountRegistry {
    accounts: Vec<Account>,
    current: Option<String>,
}

impl View for AccountRegistry {
    type V = RegistryView;

    closed spec fn view(&self) -> RegistryView {
        RegistryView { accounts: views(self.accounts@), current: text_of(self.current) }
    }
}

impl AccountRegistry {
    /// The registry's invariant.
    pub open spec fn wf(&self) -> bool {
        self@.wf()
    }

    /// A registry without accounts and with an empty pointer.
    pub fn new() -> (r: AccountRegistry)
        ensures
            r.wf(),
            r@.accounts.len() == 0,
            r@.current is None,
    {
        AccountRegistry { accounts: Vec::new(), current: None }
    }

    fn find_by_id(&self, id: &String) -> (r: Option<usize>)
        requires
            self.wf(),
        ensures
            r is Some <==> has_id(self@.accounts, id@),
            r is Some ==> r->Some_0 as int == index_of_id(self@.accounts, id@),
            r is Some ==> r->Some_0 < self.accounts.len(),
    {
        let mut i: usize = 0;
        while i < self.accounts.len()
            invariant
                i <= self.accounts.len(),
                self.wf(),
                forall|k: int| 0 <= k < i ==> (#[trigger] self@.accounts[k]).id != id@,
            decreases self.accounts.len() - i,
        {
            if self.accounts[i].id == *id {
                proof {
                    assert(self@.accounts[i as int].id == id@);
                    lemma_index_of_id(self@.accounts, i as int);
                }
                return Some(i);
            }
            i += 1;
        }
        None
    }

    fn find_by_email(&self, email: &String) -> (r: Option<usize>)
        requires
            self.wf(),
        ensures
            r is Some <==> has_email(self@.accounts, email@),
            r is Some ==> r->Some_0 as int == index_of_email(self@.accounts, email@),
            r is Some ==> r->Some_0 < self.accounts.len(),
    {
        let mut i: usize = 0;
        while i < self.accounts.len()
            invariant
                i <= self.accounts.len(),
                self.wf(),
                forall|k: int| 0 <= k < i ==> (#[trigger] self@.accounts[k]).email != email@,
            decreases self.accounts.len() - i,
        {
            if self.accounts[i].email == *email {
                proof {
                    assert(self@.accounts[i as int].email == email@);
                    lemma_index_of_email(self@.accounts, i as int);
                }
                return Some(i);
            }
            i += 1;
        }
        None
    }

    /// Registers `email`, or renews the name and token of the account that is
    /// registered under it. A known account keeps its id and its quota. A new
    /// one gets `fresh_id`, which the caller has generated, and no quota;
    /// where another account already carries that id the registry stays as
    /// it is and the call fails.
    pub fn upsert(
        &mut self,
        email: String,
        display_name: Option<String>,
        token: TokenData,
        fresh_id: String,
    ) -> (r: Result<Account, AppError>)
        requires
            old(self).wf(),
        ensures
            final(self).wf(),
            final(self)@ == old(self)@.upsert(email@, text_of(display_name), token@, fresh_id@),
            match r {
                Ok(account) => !old(self)@.upsert_rejected(email@, fresh_id@)
                    && account@ == old(self)@.upserted(
                    email@,
                    text_of(display_name),
                    token@,
                    fresh_id@,
                ),
                Err(e) => old(self)@.upsert_rejected(email@, fresh_id@) && e
                    == AppError::StorageError,
            },
    {
        let ghost before = self@;
        match self.find_by_email(&email) {
            Some(i) => {
                let known = self.accounts.remove(i);
                let stored = Account {
                    id: known.id,
                    email,
                    display_name,
                    token,
                    quota: known.quota,
                };
                let copy = stored.duplicate();
                self.accounts.insert(i, stored);
                proof {
                    assert(known@ == before.accounts[i as int]);
                    assert(self@.accounts =~= before.accounts.update(i as int, copy@));
                    lemma_upsert_keeps_wf(
                        before,
                        email@,
                        text_of(display_name),
                        token@,
                        fresh_id@,
                    );
                }
                Ok(copy)
            },
            None => {
                match self.find_by_id(&fresh_id) {
                    Some(_) => Err(AppError::StorageError),
                    None => {
                        let stored = Account {
                            id: fresh_id,
                            email,
                            display_name,
                            token,
                            quota: None,
                        };
                        let copy = stored.duplicate();
                        self.accounts.push(stored);
                        proof {
                            assert(self@.accounts =~= before.accounts.push(copy@));
                            lemma_upsert_keeps_wf(
                                before,
                                email@,
                                text_of(display_name),
                                token@,
                                fresh_id@,
                            );
                        }
                        Ok(copy)
                    },
                }
            },
        }
    }

    /// Removes the account with `id`. A pointer that named it is cleared in
    /// the same step. Fails with `NotFound`, changing nothing, where no
    /// account carries `id`.
    pub fn delete(&mut self, id: &String) -> (r: Result<(), AppError>)
        requires
            old(self).wf(),
        ensures
            final(self).wf(),
            final(self)@ == old(self)@.delete(id@),
            match r {
                Ok(_) => has_id(old(self)@.accounts, id@) && !has_id(final(self)@.accounts, id@),
                Err(e) => !has_id(old(self)@.accounts, id@) && e == AppError::NotFound,
            },
    {
        let ghost before = self@;
        match self.find_by_id(id) {
            None => Err(AppError::NotFound),
            Some(i) => {
                let _ = self.accounts.remove(i);
                let names_it = match &self.current {
                    Some(c) => *c == *id,
                    None => false,
                };
                if names_it {
                    self.current = None;
                }
                proof {
                    assert(self@.accounts =~= before.accounts.remove(i as int));
                    lemma_delete_keeps_wf(before, id@);
                }
                Ok(())
            },
        }
    }

    /// Points the current-account pointer at the account with `id`. Fails
    /// with `NotFound`, leaving the pointer as it was, where no account
    /// carries `id`.
    pub fn switch(&mut self, id: &String) -> (r: Result<(), AppError>)
        requires
            old(self).wf(),
        ensures
            final(self).wf(),
            final(self)@ == old(self)@.switch(id@),
            match r {
                Ok(_) => has_id(old(self)@.accounts, id@) && final(self)@.current == Some(id@),
                Err(e) => !has_id(old(self)@.accounts, id@)
                    && e == AppError::NotFound
                    && final(self)@ == old(self)@,
            },
    {
        match self.find_by_id(id) {
            None => Err(AppError::NotFound),
            Some(_) => {
                self.current = Some(id.clone());
                Ok(())
            },
        }
    }

    /// The account that the pointer resolves to: none where the pointer is
    /// empty or names no stored account.
    pub fn get_current(&self) -> (r: Option<Account>)
        requires
            self.wf(),
        ensures
            match r {
                Some(account) => self@.current_account() == Some(account@),
                None => self@.current_account() is None,
            },
    {
        match &self.current {
            None => None,
            Some(id) => match self.find_by_id(id) {
                Some(i) => Some(self.accounts[i].duplicate()),
                None => None,
            },
        }
    }

    /// The id that the pointer holds, if any.
    pub fn current_id(&self) -> (r: Option<String>)
        ensures
            text_of(r) == self@.current,
    {
        copy_text(&self.current)
    }

    /// The account with `id`, or `NotFound`.
    pub fn load_account(&self, id: &String) -> (r: Result<Account, AppError>)
        requires
            self.wf(),
        ensures
            match r {
                Ok(account) => self@.lookup(id@) == Some(account@),
                Err(e) => self@.lookup(id@) is None && e == AppError::NotFound,
            },
    {
        match self.find_by_id(id) {
            Some(i) => Ok(self.accounts[i].duplicate()),
            None => Err(AppError::NotFound),
        }
    }

    /// Replaces the quota of the account with `id`. Fails with `NotFound`,
    /// changing nothing, where the account is no longer stored.
    pub fn update_quota(&mut self, id: &String, quota: QuotaData) -> (r: Result<(), AppError>)
        requires
            old(self).wf(),
        ensures
            final(self).wf(),
            final(self)@ == old(self)@.update_quota(id@, quota),
            match r {
                Ok(_) => has_id(old(self)@.accounts, id@),
                Err(e) => !has_id(old(self)@.accounts, id@) && e == AppError::NotFound,
            },
    {
        let ghost before = self@;
        match self.find_by_id(id) {
            None => Err(AppError::NotFound),
            Some(i) => {
                let mut known = self.accounts.remove(i);
                known.quota = Some(quota);
                let ghost stored = known@;
                self.accounts.insert(i, known);
                proof {
                    assert(self@.accounts =~= before.accounts.update(i as int, stored));
                    lemma_update_quota_touches_one_account(before, id@, quota);
                }
                Ok(())
            },
        }
    }

    /// Rebuilds a registry from persisted records. Records that share an id
    /// or an email are refused with `StorageError`. A pointer that names no
    /// record is dropped.
    pub fn restore(accounts: Vec<Account>, pointer: Option<String>) -> (r: Result<
        AccountRegistry,
        AppError,
    >)
        ensures
            match r {
                Ok(registry) => {
                    &&& registry.wf()
                    &&& distinct_ids(views(accounts@))
                    &&& distinct_emails(views(accounts@))
                    &&& registry@.accounts == views(accounts@)
                    &&& registry@.current == if pointer is Some && has_id(
                        views(accounts@),
                        pointer->Some_0@,
                    ) {
                        text_of(pointer)
                    } else {
                        None
                    }
                },
                Err(e) => e == AppError::StorageError && !(distinct_ids(views(accounts@))
                    && distinct_emails(views(accounts@))),
            },
    {
        let ghost vs = views(accounts@);
        let n = accounts.len();
        let mut i: usize = 0;
        while i < n
            invariant
                i <= n,
                n == accounts.len(),
                vs == views(accounts@),
                forall|a: int, b: int|
                    0 <= a < b < i ==> (#[trigger] vs[a]).id != (#[trigger] vs[b]).id && vs[a].email
                        != vs[b].email,
            decreases n - i,
        {
            let mut j: usize = 0;
            while j < i
                invariant
                    j <= i < n,
                    n == accounts.len(),
                    vs == views(accounts@),
                    forall|a: int|
                        0 <= a < j ==> (#[trigger] vs[a]).id != vs[i as int].id && vs[a].email
                            != vs[i as int].email,
                decreases i - j,
            {
                if accounts[j].id == accounts[i].id || accounts[j].email == accounts[i].email {
                    proof {
                        assert(vs[j as int].id == vs[i as int].id || vs[j as int].email
                            == vs[i as int].email);
                    }
                    return Err(AppError::StorageError);
                }
                j += 1;
            }
            i += 1;
        }
        let mut registry = AccountRegistry { accounts, current: None };
        match pointer {
            Some(id) => {
                if registry.find_by_id(&id).is_some() {
                    registry.current = Some(id);
                }
            },
            None => {},
        }
        Ok(registry)
    }

    /// Copies of all accounts, in the order of their registration.
    pub fn list_accounts(&self) -> (r: Vec<Account>)
        ensures
            views(r@) == self@.accounts,
    {
        let mut out: Vec<Account> = Vec::new();
        let mut i: usize = 0;
        while i < self.accounts.len()
            invariant
                i <= self.accounts.len(),
                out@.len() == i,
                forall|k: int| 0 <= k < i ==> (#[trigger] out@[k])@ == self.accounts@[k]@,
            decreases self.accounts.len() - i,
        {
            out.push(self.accounts[i].duplicate());
            i += 1;
        }
        proof {
            assert(views(out@) =~= self@.accounts);
        }
        out
    }
}

/// Registering the same email twice leaves exactly one account under it, and
/// that account carries after the second call the id it had after the first.
/// The first call is taken to be accepted: one that had to create the account
/// under an id already in use stores nothing.
pub proof fn lemma_upsert_twice_keeps_one_account(
    registry: RegistryView,
    email: Seq<char>,
    first_name: Option<Seq<char>>,
    first_token: TokenView,
    first_id: Seq<char>,
    second_name: Option<Seq<char>>,
    second_token: TokenView,
    second_id: Seq<char>,
)
    requires
        registry.wf(),
        !registry.upsert_rejected(email, first_id),
    ensures
        ({
            let once = registry.upsert(email, first_name, first_token, first_id);
            let twice = once.upsert(email, second_name, second_token, second_id);
            &&& once.wf()
            &&& twice.wf()
            &&& !once.upsert_rejected(email, second_id)
            &&& twice.accounts.len() == once.accounts.len()
            &&& has_email(twice.accounts, email)
            &&& forall|i: int, j: int|
                0 <= i < twice.accounts.len()
                    && 0 <= j < twice.accounts.len()
                    && (#[trigger] twice.accounts[i]).email == email
                    && (#[trigger] twice.accounts[j]).email == email ==> i == j
            &&& twice.accounts[index_of_email(twice.accounts, email)].id
                == once.accounts[index_of_email(once.accounts, email)].id
        }),
{
    lemma_upsert_keeps_wf(registry, email, first_name, first_token, first_id);
    let once = registry.upsert(email, first_name, first_token, first_id);
    lemma_upsert_keeps_wf(once, email, second_name, second_token, second_id);
    let twice = once.upsert(email, second_name, second_token, second_id);
    let p = index_of_email(once.accounts, email);
    assert(twice.accounts[p].email == email);
    lemma_index_of_email(twice.accounts, p);
    assert forall|i: int, j: int|
        0 <= i < twice.accounts.len()
            && 0 <= j < twice.accounts.len()
            && (#[trigger] twice.accounts[i]).email == email
            && (#[trigger] twice.accounts[j]).email == email implies i == j by {
        if i < j {
            assert(twice.accounts[i].email != twice.accounts[j].email);
        }
        if j < i {
            assert(twice.accounts[j].email != twice.accounts[i].email);
        }
    }
}

/// An upsert keeps the registry's invariant, and afterwards the email is
/// registered unless the upsert was refused.
pub proof fn lemma_upsert_keeps_wf(
    registry: RegistryView,
    email: Seq<char>,
    display_name: Option<Seq<char>>,
    token: TokenView,
    fresh_id: Seq<char>,
)
    requires
        registry.wf(),
    ensures
        registry.upsert(email, display_name, token, fresh_id).wf(),
        !registry.upsert_rejected(email, fresh_id) ==> has_email(
            registry.upsert(email, display_name, token, fresh_id).accounts,
            email,
        ),
        registry.upsert(email, display_name, token, fresh_id).current == registry.current,
{
    let after = registry.upsert(email, display_name, token, fresh_id);
    if has_email(registry.accounts, email) {
        let p = index_of_email(registry.accounts, email);
        assert forall|k: int| 0 <= k < after.accounts.len()
            implies (#[trigger] after.accounts[k]).id == registry.accounts[k].id
            && after.accounts[k].email
            == registry.accounts[k].email by {}
        assert(after.accounts[p].email == email);
    } else if !has_id(registry.accounts, fresh_id) {
        let n = registry.accounts.len() as int;
        assert forall|k: int| 0 <= k < n implies (#[trigger] after.accounts[k])
            == registry.accounts[k] by {}
        assert(after.accounts[n].email == email);
        assert(after.accounts[n].id == fresh_id);
        assert(distinct_ids(after.accounts)) by {
            assert forall|a: int, b: int| 0 <= a < b < after.accounts.len()
                implies (#[trigger] after.accounts[a]).id != (#[trigger] after.accounts[b]).id by {
                if b < n {
                    assert(registry.accounts[a].id != registry.accounts[b].id);
                } else {
                    assert(registry.accounts[a].id != fresh_id);
                }
            }
        }
        assert(distinct_emails(after.accounts)) by {
            assert forall|a: int, b: int| 0 <= a < b < after.accounts.len()
                implies (#[trigger] after.accounts[a]).email
                != (#[trigger] after.accounts[b]).email by {
                if b < n {
                    assert(registry.accounts[a].email != registry.accounts[b].email);
                } else {
                    assert(registry.accounts[a].email != email);
                }
            }
        }
    }
    if after.current is Some {
        let w = index_of_id(registry.accounts, registry.current->Some_0);
        assert(after.accounts[w].id == registry.current->Some_0);
    }
}

/// A deletion keeps the registry's invariant, and afterwards no account
/// carries the id.
pub proof fn lemma_delete_keeps_wf(registry: RegistryView, id: Seq<char>)
    requires
        registry.wf(),
    ensures
        registry.delete(id).wf(),
        !has_id(registry.delete(id).accounts, id),
{
    let after = registry.delete(id);
    if has_id(registry.accounts, id) {
        let i = index_of_id(registry.accounts, id);
        assert forall|k: int| 0 <= k < after.accounts.len() implies #[trigger] after.accounts[k]
            == registry.accounts[if k < i {
            k
        } else {
            k + 1
        }] by {}
        assert forall|a: int, b: int| 0 <= a < b < after.accounts.len()
            implies (#[trigger] after.accounts[a]).id != (#[trigger] after.accounts[b]).id
            && after.accounts[a].email
            != after.accounts[b].email by {
            let a0 = if a < i { a } else { a + 1 };
            let b0 = if b < i { b } else { b + 1 };
            assert(registry.accounts[a0].id != registry.accounts[b0].id);
            assert(registry.accounts[a0].email != registry.accounts[b0].email);
        }
        if has_id(after.accounts, id) {
            let k = index_of_id(after.accounts, id);
            let k0 = if k < i { k } else { k + 1 };
            assert(registry.accounts[k0].id == id);
            lemma_index_of_id(registry.accounts, k0);
        }
        if after.current is Some {
            let w = index_of_id(registry.accounts, registry.current->Some_0);
            assert(registry.accounts[w].id != id);
            let w1 = if w < i { w } else { w - 1 };
            assert(after.accounts[w1].id == registry.current->Some_0);
        }
    }
}

/// Deleting the account that the pointer names leaves the pointer empty, so
/// that no current account is found afterwards.
pub proof fn lemma_delete_current_clears_pointer(registry: RegistryView, id: Seq<char>)
    requires
        registry.wf(),
        registry.current == Some(id),
    ensures
        registry.delete(id).wf(),
        registry.delete(id).current is None,
        registry.delete(id).current_account() is None,
        !has_id(registry.delete(id).accounts, id),
{
    lemma_delete_keeps_wf(registry, id);
}

/// A switch keeps the registry's invariant and the accounts.
pub proof fn lemma_switch_keeps_wf(registry: RegistryView, id: Seq<char>)
    requires
        registry.wf(),
    ensures
        registry.switch(id).wf(),
        registry.switch(id).accounts == registry.accounts,
{
}

/// A switch to an id that no account carries changes nothing, the pointer
/// included.
pub proof fn lemma_switch_to_unknown_id_changes_nothing(registry: RegistryView, id: Seq<char>)
    requires
        !has_id(registry.accounts, id),
    ensures
        registry.switch(id) == registry,
{
}

/// Replacing the quota of one account leaves every other account, the order
/// of the accounts and the pointer as they were.
pub proof fn lemma_update_quota_touches_one_account(
    registry: RegistryView,
    id: Seq<char>,
    quota: QuotaData,
)
    requires
        registry.wf(),
    ensures
        registry.update_quota(id, quota).wf(),
        registry.update_quota(id, quota).current == registry.current,
        registry.update_quota(id, quota).accounts.len() == registry.accounts.len(),
        forall|k: int|
            0 <= k < registry.accounts.len() && (#[trigger] registry.accounts[k]).id != id
                ==> registry.update_quota(id, quota).accounts[k] == registry.accounts[k],
        forall|k: int|
            0 <= k < registry.accounts.len() && (#[trigger] registry.accounts[k]).id == id
                ==> registry.update_quota(id, quota).accounts[k].quota == Some(quota),
{
    let after = registry.update_quota(id, quota);
    if has_id(registry.accounts, id) {
        let i = index_of_id(registry.accounts, id);
        assert forall|k: int| 0 <= k < after.accounts.len()
            implies (#[trigger] after.accounts[k]).id == registry.accounts[k].id
            && after.accounts[k].email
            == registry.accounts[k].email by {}
        assert forall|k: int|
            0 <= k < registry.accounts.len() && (#[trigger] registry.accounts[k]).id
                == id implies after.accounts[k].quota == Some(quota) by {
            lemma_index_of_id(registry.accounts, k);
        }
        if after.current is Some {
            let w = index_of_id(registry.accounts, registry.current->Some_0);
            assert(after.accounts[w].id == registry.current->Some_0);
        }
    }
}

} // verus!
