use vstd::prelude::*;
use vstd::arithmetic::power2::{lemma_pow2_unfold, lemma_pow2_pos, pow2};
use crate::error::AppError;
use crate::models::{QuotaData, TokenData};
use crate::token::{TokenResponse, expiry_fits};

verus! {

/// How often a transient failure is retried, and the first delay.
#[derive(Clone, Copy, Debug, PartialEq, Eq, Structural)]
pub struct RetryPolicy {
    pub max_retries: u32,
    pub base_delay_ms: u64,
}

/// What one query of the quota endpoint came to.
#[derive(Clone, Copy, Debug, PartialEq, Eq, Structural)]
pub enum QueryResult {
    /// The service answered with usage figures.
    Usage { used: u64, limit: u64 },
    /// The service denied access for good.
    Forbidden,
    /// The access token was refused as expired or invalid.
    AuthFailure,
    /// A network error or a server-side failure.
    TransientFailure,
}

/// Where a fetch stands.
#[derive(Clone, Copy, Debug, PartialEq, Eq, Structural)]
pub enum FetchPhase {
    /// Querying with the token the fetch began with.
    Querying,
    /// Waiting for the outcome of the one token renewal.
    Refreshing,
    /// Waiting for the one query made with the renewed token.
    Retrying,
    /// The fetch has delivered its result.
    Finished,
}

/// What the caller does next.
#[derive(Clone, Copy, Debug, PartialEq, Eq)]
pub enum FetchAction {
    /// Wait this long, then query the endpoint again.
    Query { delay_ms: u64 },
    /// Renew the access token.
    Refresh,
    /// The fetch ends with this quota.
    Deliver(QuotaData),
    /// The fetch ends with this error.
    Fail(AppError),
    /// The input did not belong to the current phase and was ignored.
    Nothing,
}

/// The state of one quota fetch. It begins in `Querying`, with the caller's
/// first query under way.
#[derive(Clone, Copy, Debug, PartialEq, Eq)]
pub struct FetchSession {
    pub policy: RetryPolicy,
    pub phase: FetchPhase,
    /// Transient failures met so far.
    pub failures: u32,
}

/// An input to a fetch: the result of a query with the time it arrived, or
/// the failure of a token renewal, if it failed.
pub enum FetchInput {
    Query(QueryResult, i64),
    Refresh(Option<AppError>),
}

/// The delay before the retry that follows the `failures`-th transient
/// failure, counted from zero: the base delay doubled that many times, held
/// at the largest value a `u64` takes.
pub open spec fn backoff_delay(base_delay_ms: u64, failures: nat) -> int {
    if base_delay_ms * pow2(failures) > u64::MAX {
        u64::MAX as int
    } else {
        base_delay_ms * pow2(failures)
    }
}

/// The quota recorded for an answer with usage figures.
pub open spec fn usage_quota(used: u64, limit: u64, now: i64) -> QuotaData {
    QuotaData { used, limit, is_forbidden: false, fetched_at: now }
}

/// The quota recorded for a permanent denial.
pub open spec fn forbidden_quota(now: i64) -> QuotaData {
    QuotaData { used: 0, limit: 0, is_forbidden: true, fetched_at: now }
}

/// Why a renewal with this outcome fails, if it does.
pub open spec fn refresh_failure(
    outcome: Result<TokenResponse, AppError>,
    now: i64,
    safety_skew: i64,
) -> Option<AppError> {
    match outcome {
        Ok(resp) => if expiry_fits(now as int, resp.expires_in as int, safety_skew as int) {
            None
        } else {
            Some(AppError::AuthError)
        },
        Err(e) => Some(e),
    }
}

proof fn lemma_backoff_doubles(base_delay_ms: u64, failures: nat)
    ensures
        backoff_delay(base_delay_ms, failures + 1) == if backoff_delay(base_delay_ms, failures)
            > u64::MAX / 2 {
            u64::MAX as int
        } else {
            2 * backoff_delay(base_delay_ms, failures)
        },
        backoff_delay(base_delay_ms, 0) == base_delay_ms,
{
    lemma_pow2_unfold(failures + 1);
    lemma_pow2_pos(failures);
    assert(pow2(0) == 1) by {
        vstd::arithmetic::power2::lemma2_to64();
    }
    let p = pow2(failures) as int;
    let b = base_delay_ms as int;
    assert(b * (2 * p) == 2 * (b * p)) by (nonlinear_arith);
    assert(b * p >= 0) by (nonlinear_arith)
        requires
            b >= 0,
            p >= 0,
    ;
    assert(b * 1 == b);
}

/// Computes the backoff delay.
pub fn backoff_delay_ms(base_delay_ms: u64, failures: u32) -> (d: u64)
    ensures
        d as int == backoff_delay(base_delay_ms, failures as nat),
{
    let mut d: u64 = base_delay_ms;
    let mut i: u32 = 0;
    proof {
        lemma_backoff_doubles(base_delay_ms, 0);
    }
    while i < failures
        invariant
            i <= failures,
            d as int == backoff_delay(base_delay_ms, i as nat),
        decreases failures - i,
    {
        proof {
            lemma_backoff_doubles(base_delay_ms, i as nat);
        }
        d = if d > u64::MAX / 2 {
            u64::MAX
        } else {
            d * 2
        };
        i += 1;
    }
    d
}

impl FetchSession {
    /// The retry bound has not been overrun.
    pub open spec fn wf(self) -> bool {
        self.failures <= self.policy.max_retries
    }

    /// The session with another phase.
    pub open spec fn in_phase(self, phase: FetchPhase) -> FetchSession {
        FetchSession { policy: self.policy, phase, failures: self.failures }
    }

    /// The state and the action that follow a query result.
    ///
    /// With the first token, usage figures and a denial end the fetch with a
    /// quota; a transient failure is retried after the backoff delay while
    /// the bound allows, and ends the fetch as a network error after that; an
    /// authentication failure asks for the one renewal. With the renewed
    /// token there is one query only: any failure of it ends the fetch.
    pub open spec fn after_query(self, result: QueryResult, now: i64) -> (
        FetchSession,
        FetchAction,
    ) {
        let done = self.in_phase(FetchPhase::Finished);
        match self.phase {
            FetchPhase::Querying => match result {
                QueryResult::Usage { used, limit } => (
                    done,
                    FetchAction::Deliver(usage_quota(used, limit, now)),
                ),
                QueryResult::Forbidden => (done, FetchAction::Deliver(forbidden_quota(now))),
                QueryResult::AuthFailure => (
                    self.in_phase(FetchPhase::Refreshing),
                    FetchAction::Refresh,
                ),
                QueryResult::TransientFailure => if self.failures < self.policy.max_retries {
                    (
                        FetchSession {
                            policy: self.policy,
                            phase: FetchPhase::Querying,
                            failures: (self.failures + 1) as u32,
                        },
                        FetchAction::Query {
                            delay_ms: backoff_delay(
                                self.policy.base_delay_ms,
                                self.failures as nat,
                            ) as u64,
                        },
                    )
                } else {
                    (done, FetchAction::Fail(AppError::NetworkError))
                },
            },
            FetchPhase::Retrying => match result {
                QueryResult::Usage { used, limit } => (
                    done,
                    FetchAction::Deliver(usage_quota(used, limit, now)),
                ),
                QueryResult::Forbidden => (done, FetchAction::Deliver(forbidden_quota(now))),
                QueryResult::AuthFailure => (done, FetchAction::Fail(AppError::AuthError)),
                QueryResult::TransientFailure => (done, FetchAction::Fail(AppError::NetworkError)),
            },
            _ => (self, FetchAction::Nothing),
        }
    }

    /// The state and the action that follow the outcome of the renewal.
    pub open spec fn after_refresh(self, failure: Option<AppError>) -> (
        FetchSession,
        FetchAction,
    ) {
        match self.phase {
            FetchPhase::Refreshing => match failure {
                None => (self.in_phase(FetchPhase::Retrying), FetchAction::Query { delay_ms: 0 }),
                Some(e) => (self.in_phase(FetchPhase::Finished), FetchAction::Fail(e)),
            },
            _ => (self, FetchAction::Nothing),
        }
    }

    /// The state and the action that follow any input.
    pub open spec fn after(self, input: FetchInput) -> (FetchSession, FetchAction) {
        match input {
            FetchInput::Query(result, now) => self.after_query(result, now),
            FetchInput::Refresh(failure) => self.after_refresh(failure),
        }
    }

    /// How many renewals a run over `inputs` asks for.
    pub open spec fn refreshes(self, inputs: Seq<FetchInput>) -> nat
        decreases inputs.len(),
    {
        if inputs.len() == 0 {
            0
        } else {
            let (next, action) = self.after(inputs[0]);
            let here: nat = if action is Refresh {
                1
            } else {
                0
            };
            here + next.refreshes(inputs.drop_first())
        }
    }

    /// How many further queries a run over `inputs` asks for.
    pub open spec fn queries(self, inputs: Seq<FetchInput>) -> nat
        decreases inputs.len(),
    {
        if inputs.len() == 0 {
            0
        } else {
            let (next, action) = self.after(inputs[0]);
            let here: nat = if action is Query {
                1
            } else {
                0
            };
            here + next.queries(inputs.drop_first())
        }
    }

    /// The most further queries a fetch in this state can still ask for.
    pub open spec fn query_budget(self) -> nat {
        match self.phase {
            FetchPhase::Querying => (self.policy.max_retries - self.failures + 1) as nat,
            FetchPhase::Refreshing => 1,
            _ => 0,
        }
    }

    /// A fetch whose first query is under way.
    pub fn start(policy: RetryPolicy) -> (s: FetchSession)
        ensures
            s == (FetchSession { policy, phase: FetchPhase::Querying, failures: 0 }),
            s.wf(),
    {
        FetchSession { policy, phase: FetchPhase::Querying, failures: 0 }
    }

    /// Whether the fetch has delivered its result.
    pub fn is_finished(&self) -> (b: bool)
        ensures
            b == (self.phase == FetchPhase::Finished),
    {
        self.phase == FetchPhase::Finished
    }

    /// Takes the result of a query that arrived at `now`.
    pub fn on_query_result(&mut self, result: QueryResult, now: i64) -> (action: FetchAction)
        ensures
            old(self).wf() ==> final(self).wf(),
            (*final(self), action) == old(self).after_query(result, now),
    {
        match self.phase {
            FetchPhase::Querying => match result {
                QueryResult::Usage { used, limit } => {
                    self.phase = FetchPhase::Finished;
                    FetchAction::Deliver(
                        QuotaData { used, limit, is_forbidden: false, fetched_at: now },
                    )
                },
                QueryResult::Forbidden => {
                    self.phase = FetchPhase::Finished;
                    FetchAction::Deliver(
                        QuotaData { used: 0, limit: 0, is_forbidden: true, fetched_at: now },
                    )
                },
                QueryResult::AuthFailure => {
                    self.phase = FetchPhase::Refreshing;
                    FetchAction::Refresh
                },
                QueryResult::TransientFailure => {
                    if self.failures < self.policy.max_retries {
                        let delay_ms = backoff_delay_ms(self.policy.base_delay_ms, self.failures);
                        self.failures = self.failures + 1;
                        FetchAction::Query { delay_ms }
                    } else {
                        self.phase = FetchPhase::Finished;
                        FetchAction::Fail(AppError::NetworkError)
                    }
                },
            },
            FetchPhase::Retrying => {
                self.phase = FetchPhase::Finished;
                match result {
                    QueryResult::Usage { used, limit } => FetchAction::Deliver(
                        QuotaData { used, limit, is_forbidden: false, fetched_at: now },
                    ),
                    QueryResult::Forbidden => FetchAction::Deliver(
                        QuotaData { used: 0, limit: 0, is_forbidden: true, fetched_at: now },
                    ),
                    QueryResult::AuthFailure => FetchAction::Fail(AppError::AuthError),
                    QueryResult::TransientFailure => FetchAction::Fail(AppError::NetworkError),
                }
            },
            _ => FetchAction::Nothing,
        }
    }

    /// Takes the outcome of the token renewal, answered at `now`. While the
    /// fetch waits for it, a successful outcome is taken into `token` and the
    /// query is repeated once; a failed one ends the fetch and leaves `token`
    /// as it was. In any other phase nothing changes.
    pub fn on_refresh_result(
        &mut self,
        token: &mut TokenData,
        outcome: Result<TokenResponse, AppError>,
        now: i64,
        safety_skew: i64,
    ) -> (action: FetchAction)
        ensures
            old(self).wf() ==> final(self).wf(),
            old(self).phase == FetchPhase::Refreshing
                ==> (*final(self), action) == old(self).after_refresh(
                refresh_failure(outcome, now, safety_skew),
            ),
            old(self).phase != FetchPhase::Refreshing ==> *final(self) == *old(self) && action
                == FetchAction::Nothing && final(token)@ == old(token)@,
            old(self).phase == FetchPhase::Refreshing ==> match outcome {
                Ok(resp) => if expiry_fits(now as int, resp.expires_in as int, safety_skew as int) {
                    final(token)@ == crate::token::renewed_token(
                        old(token)@,
                        resp.access_token@,
                        resp.expires_in as int,
                        crate::models::text_of(resp.refresh_token),
                        now as int,
                        safety_skew as int,
                    )
                } else {
                    final(token)@ == old(token)@
                },
                Err(_) => final(token)@ == old(token)@,
            },
    {
        match self.phase {
            FetchPhase::Refreshing => match token.apply_refresh(outcome, now, safety_skew) {
                Ok(_) => {
                    self.phase = FetchPhase::Retrying;
                    FetchAction::Query { delay_ms: 0 }
                },
                Err(e) => {
                    self.phase = FetchPhase::Finished;
                    FetchAction::Fail(e)
                },
            },
            _ => FetchAction::Nothing,
        }
    }
}

/// Whatever inputs arrive, a fetch asks for at most one token renewal, and
/// for none once it has left its first phase.
pub proof fn lemma_at_most_one_refresh(session: FetchSession, inputs: Seq<FetchInput>)
    ensures
        session.refreshes(inputs) <= 1,
        session.phase != FetchPhase::Querying ==> session.refreshes(inputs) == 0,
    decreases inputs.len(),
{
    if inputs.len() > 0 {
        let (next, action) = session.after(inputs[0]);
        lemma_at_most_one_refresh(next, inputs.drop_first());
    }
}

/// Whatever inputs arrive, a fetch asks for no more further queries than the
/// retry bound leaves, plus the one that follows a renewal: it cannot go on
/// retrying for ever.
pub proof fn lemma_queries_bounded(session: FetchSession, inputs: Seq<FetchInput>)
    requires
        session.wf(),
    ensures
        session.queries(inputs) <= session.query_budget(),
        session.query_budget() <= session.policy.max_retries + 1,
    decreases inputs.len(),
{
    if inputs.len() > 0 {
        let (next, action) = session.after(inputs[0]);
        lemma_queries_bounded(next, inputs.drop_first());
    }
}

/// An authentication failure on the first token asks for a renewal; after a
/// successful renewal the query is made once more; and a second
/// authentication failure ends the fetch with `AuthError`.
pub proof fn lemma_second_auth_failure_is_final(
    session: FetchSession,
    first_at: i64,
    second_at: i64,
)
    requires
        session.phase == FetchPhase::Querying,
    ensures
        ({
            let (refreshing, first) = session.after_query(QueryResult::AuthFailure, first_at);
            let (retrying, second) = refreshing.after_refresh(None);
            let (done, last) = retrying.after_query(QueryResult::AuthFailure, second_at);
            &&& first == FetchAction::Refresh
            &&& second == (FetchAction::Query { delay_ms: 0 })
            &&& last == FetchAction::Fail(AppError::AuthError)
            &&& done.phase == FetchPhase::Finished
            &&& forall|inputs: Seq<FetchInput>| #[trigger] done.refreshes(inputs) == 0
            &&& forall|inputs: Seq<FetchInput>| #[trigger] done.queries(inputs) == 0
        }),
{
    let (refreshing, first) = session.after_query(QueryResult::AuthFailure, first_at);
    let (retrying, second) = refreshing.after_refresh(None);
    let (done, last) = retrying.after_query(QueryResult::AuthFailure, second_at);
    assert forall|inputs: Seq<FetchInput>| #[trigger] done.refreshes(inputs) == 0 by {
        lemma_at_most_one_refresh(done, inputs);
    }
    assert forall|inputs: Seq<FetchInput>| #[trigger] done.queries(inputs) == 0 by {
        lemma_finished_asks_nothing(done, inputs);
    }
}

/// A finished fetch asks for no further query.
pub proof fn lemma_finished_asks_nothing(session: FetchSession, inputs: Seq<FetchInput>)
    requires
        session.phase == FetchPhase::Finished,
    ensures
        session.queries(inputs) == 0,
    decreases inputs.len(),
{
    if inputs.len() > 0 {
        let (next, action) = session.after(inputs[0]);
        lemma_finished_asks_nothing(next, inputs.drop_first());
    }
}

} // verus!
