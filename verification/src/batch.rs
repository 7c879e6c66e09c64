use vstd::prelude::*;
use vstd::string::StringExecFns;
use crate::error::AppError;
use crate::models::{Account, AccountView, QuotaData};
use crate::registry::{AccountRegistry, has_id, views};

verus! {

/// The outcome of a batch refresh: how many accounts were processed, how
/// many of them succeeded and failed, and one line for each failure.
#[derive(Clone, Debug, PartialEq, Eq)]
pub struct RefreshStats {
    pub total: usize,
    pub success: usize,
    pub failed: usize,
    pub details: Vec<String>,
}

/// The texts of a list of strings, in order.
pub open spec fn texts(lines: Seq<String>) -> Seq<Seq<char>> {
    Seq::new(lines.len(), |i: int| lines[i]@)
}

/// How many of the accounts a batch processes: those not flagged forbidden.
pub open spec fn processable(accounts: Seq<AccountView>) -> nat
    decreases accounts.len(),
{
    if accounts.len() == 0 {
        0
    } else {
        let rest = processable(accounts.drop_last());
        if Account::skipped_in_batch(accounts.last()) {
            rest
        } else {
            rest + 1
        }
    }
}

/// How many of the accounts are flagged forbidden.
pub open spec fn flagged(accounts: Seq<AccountView>) -> nat
    decreases accounts.len(),
{
    if accounts.len() == 0 {
        0
    } else {
        let rest = flagged(accounts.drop_last());
        if Account::skipped_in_batch(accounts.last()) {
            rest + 1
        } else {
            rest
        }
    }
}

/// The first position from `from` on whose account is not flagged
/// forbidden, or the length where there is none.
pub open spec fn first_pending(accounts: Seq<AccountView>, from: int) -> int
    decreases accounts.len() - from,
{
    if from < 0 || from >= accounts.len() {
        accounts.len() as int
    } else if !Account::skipped_in_batch(accounts[from]) {
        from
    } else {
        first_pending(accounts, from + 1)
    }
}

/// The line recorded where the quota of an account could not be fetched.
pub open spec fn fetch_failure_detail(email: Seq<char>, e: AppError) -> Seq<char> {
    "Account "@ + email + ": Fetch quota failed - "@ + e.message_spec()
}

/// The line recorded where a fetched quota could not be stored.
pub open spec fn save_failure_detail(email: Seq<char>, e: AppError) -> Seq<char> {
    "Account "@ + email + ": Save quota failed - "@ + e.message_spec()
}

/// Every account is either processed or flagged.
pub proof fn lemma_processable_and_flagged(accounts: Seq<AccountView>)
    ensures
        processable(accounts) + flagged(accounts) == accounts.len(),
    decreases accounts.len(),
{
    if accounts.len() > 0 {
        lemma_processable_and_flagged(accounts.drop_last());
    }
}

/// Skipping flagged accounts stops at an account to process or at the end,
/// and passes over nothing that is processed.
pub proof fn lemma_first_pending(accounts: Seq<AccountView>, from: int)
    requires
        0 <= from <= accounts.len(),
    ensures
        from <= first_pending(accounts, from) <= accounts.len(),
        first_pending(accounts, from) < accounts.len() ==> !Account::skipped_in_batch(
            accounts[first_pending(accounts, from)],
        ),
        processable(accounts.take(first_pending(accounts, from))) == processable(
            accounts.take(from),
        ),
    decreases accounts.len() - from,
{
    if from < accounts.len() && Account::skipped_in_batch(accounts[from]) {
        lemma_first_pending(accounts, from + 1);
        assert(accounts.take(from + 1).drop_last() =~= accounts.take(from));
    }
}

/// The mathematical value of a [`BatchRun`].
pub ghost struct BatchView {
    /// The accounts the batch was started on.
    pub accounts: Seq<AccountView>,
    /// The position of the account whose outcome is awaited.
    pub next: int,
    pub success: nat,
    pub failed: nat,
    pub details: Seq<Seq<char>>,
}

impl BatchView {
    /// The run waits for an account that is to be processed, or is done; and
    /// every account to process before that one has been counted once.
    pub open spec fn wf(self) -> bool {
        &&& 0 <= self.next <= self.accounts.len()
        &&& self.next < self.accounts.len() ==> !Account::skipped_in_batch(
            self.accounts[self.next],
        )
        &&& self.success + self.failed == processable(self.accounts.take(self.next))
        &&& self.details.len() == self.failed
    }

    /// No account is left to process.
    pub open spec fn is_done(self) -> bool {
        self.next >= self.accounts.len()
    }

    /// The run after the outcome for the awaited account was recorded;
    /// `stored` says whether the registry still held the account, so that a
    /// fetched quota could be stored.
    pub open spec fn record(self, outcome: Result<QuotaData, AppError>, stored: bool) -> BatchView {
        if self.is_done() {
            self
        } else {
            let email = self.accounts[self.next].email;
            let next = first_pending(self.accounts, self.next + 1);
            match outcome {
                Ok(_) => if stored {
                    BatchView {
                        accounts: self.accounts,
                        next,
                        success: self.success + 1,
                        failed: self.failed,
                        details: self.details,
                    }
                } else {
                    BatchView {
                        accounts: self.accounts,
                        next,
                        success: self.success,
                        failed: self.failed + 1,
                        details: self.details.push(
                            save_failure_detail(email, AppError::NotFound),
                        ),
                    }
                },
                Err(e) => BatchView {
                    accounts: self.accounts,
                    next,
                    success: self.success,
                    failed: self.failed + 1,
                    details: self.details.push(fetch_failure_detail(email, e)),
                },
            }
        }
    }
}

impl BatchView {
    /// The run at its start over `accounts`: it waits for the first account
    /// that is not flagged forbidden.
    pub open spec fn started(accounts: Seq<AccountView>) -> BatchView {
        BatchView {
            accounts,
            next: first_pending(accounts, 0),
            success: 0,
            failed: 0,
            details: Seq::empty(),
        }
    }

    /// The run after the outcomes were recorded one after the other; each
    /// comes with the word whether a fetched quota could be stored.
    pub open spec fn record_all(
        self,
        outcomes: Seq<(Result<QuotaData, AppError>, bool)>,
    ) -> BatchView
        decreases outcomes.len(),
    {
        if outcomes.len() == 0 {
            self
        } else {
            self.record(outcomes[0].0, outcomes[0].1).record_all(outcomes.drop_first())
        }
    }

    /// How many accounts the run has still to process.
    pub open spec fn remaining(self) -> int {
        processable(self.accounts) - (self.success + self.failed)
    }
}

/// Among the first `k` accounts no more are processed than among all.
pub proof fn lemma_processable_prefix(accounts: Seq<AccountView>, k: int)
    requires
        0 <= k <= accounts.len(),
    ensures
        processable(accounts.take(k)) <= processable(accounts),
        k < accounts.len() && !Account::skipped_in_batch(accounts[k]) ==> processable(
            accounts.take(k),
        ) < processable(accounts),
    decreases accounts.len() - k,
{
    if k == accounts.len() {
        assert(accounts.take(k) =~= accounts);
    } else {
        lemma_processable_prefix(accounts, k + 1);
        assert(accounts.take(k + 1).drop_last() =~= accounts.take(k));
    }
}

/// From any state of a run, recording further outcomes counts one account
/// for each of them until none is left, and nothing after that: the run is
/// done exactly when as many outcomes were recorded as accounts remained.
pub proof fn lemma_record_all_counts(
    run: BatchView,
    outcomes: Seq<(Result<QuotaData, AppError>, bool)>,
)
    requires
        run.wf(),
    ensures
        run.record_all(outcomes).wf(),
        run.record_all(outcomes).accounts == run.accounts,
        run.remaining() >= 0,
        run.record_all(outcomes).success + run.record_all(outcomes).failed == run.success
            + run.failed + if outcomes.len() <= run.remaining() {
            outcomes.len() as int
        } else {
            run.remaining()
        },
        run.record_all(outcomes).is_done() <==> outcomes.len() >= run.remaining(),
    decreases outcomes.len(),
{
    lemma_processable_prefix(run.accounts, run.next);
    if run.is_done() {
        assert(run.accounts.take(run.next) =~= run.accounts);
    }
    if outcomes.len() > 0 {
        if !run.is_done() {
            lemma_record_counts_one(run, outcomes[0].0, outcomes[0].1);
        }
        lemma_record_all_counts(
            run.record(outcomes[0].0, outcomes[0].1),
            outcomes.drop_first(),
        );
    }
}

/// A batch over N accounts of which M are flagged forbidden is done after
/// exactly N - M outcomes were recorded, and has then counted N - M accounts,
/// each as a success or as a failure.
pub proof fn lemma_batch_processes_unflagged_accounts(
    accounts: Seq<AccountView>,
    outcomes: Seq<(Result<QuotaData, AppError>, bool)>,
)
    requires
        outcomes.len() == accounts.len() - flagged(accounts),
    ensures
        BatchView::started(accounts).wf(),
        BatchView::started(accounts).record_all(outcomes).is_done(),
        BatchView::started(accounts).record_all(outcomes).success + BatchView::started(
            accounts,
        ).record_all(outcomes).failed == accounts.len() - flagged(accounts),
        forall|fewer: Seq<(Result<QuotaData, AppError>, bool)>|
            fewer.len() < outcomes.len() ==> !(#[trigger] BatchView::started(accounts).record_all(
                fewer,
            )).is_done(),
{
    let run = BatchView::started(accounts);
    lemma_first_pending(accounts, 0);
    assert(accounts.take(0) =~= Seq::<AccountView>::empty());
    lemma_processable_and_flagged(accounts);
    lemma_record_all_counts(run, outcomes);
    assert forall|fewer: Seq<(Result<QuotaData, AppError>, bool)>|
        fewer.len() < outcomes.len() implies !(#[trigger] run.record_all(fewer)).is_done() by {
        lemma_record_all_counts(run, fewer);
    }
}

/// Recording an outcome keeps the run's invariant, counts exactly one more
/// account, and moves the run on, whatever the outcome was.
pub proof fn lemma_record_counts_one(
    run: BatchView,
    outcome: Result<QuotaData, AppError>,
    stored: bool,
)
    requires
        run.wf(),
        !run.is_done(),
    ensures
        run.record(outcome, stored).wf(),
        run.record(outcome, stored).next > run.next,
        run.record(outcome, stored).success + run.record(outcome, stored).failed == run.success
            + run.failed + 1,
{
    lemma_first_pending(run.accounts, run.next + 1);
    assert(run.accounts.take(run.next + 1).drop_last() =~= run.accounts.take(run.next));
}

/// A finished batch over N accounts of which M are flagged forbidden has
/// counted exactly N - M accounts, each as a success or as a failure.
pub proof fn lemma_finished_batch_total(run: BatchView)
    requires
        run.wf(),
        run.is_done(),
    ensures
        run.success + run.failed == processable(run.accounts),
        run.success + run.failed == run.accounts.len() - flagged(run.accounts),
{
    assert(run.accounts.take(run.next) =~= run.accounts);
    lemma_processable_and_flagged(run.accounts);
}

fn fetch_failure_text(email: &String, e: AppError) -> (line: String)
    ensures
        line@ == fetch_failure_detail(email@, e),
{
    let mut line = String::from_str("Account ");
    line.append(email.as_str());
    line.append(": Fetch quota failed - ");
    let reason = e.message();
    line.append(reason.as_str());
    line
}

fn save_failure_text(email: &String, e: AppError) -> (line: String)
    ensures
        line@ == save_failure_detail(email@, e),
{
    let mut line = String::from_str("Account ");
    line.append(email.as_str());
    line.append(": Save quota failed - ");
    let reason = e.message();
    line.append(reason.as_str());
    line
}

/// A batch refresh in progress. The accounts are processed one after the
/// other, in the order given: the caller fetches the quota of the awaited
/// account and records the outcome, until the run is done.
pub struct BatchRun {
    accounts: Vec<Account>,
    next: usize,
    success: usize,
    failed: usize,
    details: Vec<String>,
}

impl View for BatchRun {
    type V = BatchView;

    closed spec fn view(&self) -> BatchView {
        BatchView {
            accounts: views(self.accounts@),
            next: self.next as int,
            success: self.success as nat,
            failed: self.failed as nat,
            details: texts(self.details@),
        }
    }
}

impl BatchRun {
    /// The run's invariant.
    pub open spec fn wf(&self) -> bool {
        self@.wf()
    }

    fn skip_flagged(&mut self)
        requires
            old(self).next <= old(self).accounts.len(),
        ensures
            final(self)@.next == first_pending(old(self)@.accounts, old(self)@.next),
            final(self)@.accounts == old(self)@.accounts,
            final(self)@.success == old(self)@.success,
            final(self)@.failed == old(self)@.failed,
            final(self)@.details == old(self)@.details,
    {
        while self.next < self.accounts.len() && self.accounts[self.next].is_forbidden()
            invariant
                self.next <= self.accounts.len(),
                self.accounts == old(self).accounts,
                self.success == old(self).success,
                self.failed == old(self).failed,
                self.details == old(self).details,
                first_pending(self@.accounts, self.next as int) == first_pending(
                    old(self)@.accounts,
                    old(self)@.next,
                ),
            decreases self.accounts.len() - self.next,
        {
            self.next = self.next + 1;
        }
    }

    /// Starts a batch over `accounts`, waiting for the first of them that is
    /// not flagged forbidden.
    pub fn start(accounts: Vec<Account>) -> (run: BatchRun)
        ensures
            run.wf(),
            run@ == BatchView::started(views(accounts@)),
    {
        let mut run = BatchRun { accounts, next: 0, success: 0, failed: 0, details: Vec::new() };
        run.skip_flagged();
        proof {
            lemma_first_pending(run@.accounts, 0);
            assert(run@.accounts.take(0) =~= Seq::<AccountView>::empty());
            assert(run@.details =~= Seq::<Seq<char>>::empty());
        }
        run
    }

    /// Whether every account has been dealt with.
    pub fn is_done(&self) -> (b: bool)
        ensures
            b == self@.is_done(),
    {
        self.next >= self.accounts.len()
    }

    /// The account whose outcome the run awaits, if it is not done.
    pub fn pending(&self) -> (r: Option<Account>)
        requires
            self.wf(),
        ensures
            match r {
                Some(account) => !self@.is_done() && account@ == self@.accounts[self@.next]
                    && !Account::skipped_in_batch(account@),
                None => self@.is_done(),
            },
    {
        if self.next < self.accounts.len() {
            Some(self.accounts[self.next].duplicate())
        } else {
            None
        }
    }

    /// Records the outcome of the fetch for the awaited account and moves on
    /// to the next account to process. A fetched quota is stored in
    /// `registry` and counts as a success; where the registry no longer holds
    /// the account, and where the fetch failed, a failure is counted and a
    /// line recorded. The registry changes in no other way. On a run that is
    /// done, nothing happens.
    pub fn record(&mut self, registry: &mut AccountRegistry, outcome: Result<QuotaData, AppError>)
        requires
            old(self).wf(),
            old(registry).wf(),
        ensures
            final(self).wf(),
            final(registry).wf(),
            old(self)@.is_done()
                ==> final(self)@ == old(self)@
                && final(registry)@ == old(registry)@,
            !old(self)@.is_done() ==> {
                let id = old(self)@.accounts[old(self)@.next].id;
                &&& final(self)@ == old(self)@.record(
                    outcome,
                    has_id(old(registry)@.accounts, id),
                )
                &&& final(registry)@ == match outcome {
                    Ok(quota) => old(registry)@.update_quota(id, quota),
                    Err(_) => old(registry)@,
                }
            },
    {
        if self.next >= self.accounts.len() {
            return ;
        }
        let ghost before = self@;
        proof {
            lemma_first_pending(before.accounts, before.next + 1);
            assert(before.accounts.take(before.next + 1).drop_last() =~= before.accounts.take(
                before.next,
            ));
            lemma_processable_and_flagged(before.accounts.take(before.next));
        }
        let line = match outcome {
            Ok(quota) => match registry.update_quota(&self.accounts[self.next].id, quota) {
                Ok(_) => None,
                Err(e) => Some(save_failure_text(&self.accounts[self.next].email, e)),
            },
            Err(e) => Some(fetch_failure_text(&self.accounts[self.next].email, e)),
        };
        match line {
            None => {
                self.success = self.success + 1;
            },
            Some(text) => {
                self.failed = self.failed + 1;
                self.details.push(text);
            },
        }
        self.next = self.next + 1;
        self.skip_flagged();
        proof {
            let id = before.accounts[before.next].id;
            let after = before.record(outcome, has_id(old(registry)@.accounts, id));
            assert(self@.details =~= after.details);
        }
    }

    /// The statistics of the run so far. For a run that is done, `total` is
    /// the number of accounts that were not flagged forbidden.
    pub fn finish(self) -> (stats: RefreshStats)
        requires
            self.wf(),
        ensures
            stats.total == stats.success + stats.failed,
            stats.success == self@.success,
            stats.failed == self@.failed,
            texts(stats.details@) == self@.details,
            stats.details@.len() == stats.failed,
            self@.is_done() ==> stats.total == processable(self@.accounts) && stats.total
                == self@.accounts.len() - flagged(self@.accounts),
    {
        proof {
            lemma_processable_and_flagged(self@.accounts.take(self@.next));
            if self@.is_done() {
                lemma_finished_batch_total(self@);
            }
        }
        RefreshStats {
            total: self.success + self.failed,
            success: self.success,
            failed: self.failed,
            details: self.details,
        }
    }
}

} // verus!
