use vstd::prelude::*;
use vstd::string::StringExecFns;
use crate::error::AppError;
use crate::models::text_of;
use crate::redirect::{parse_redirect, query_value_spec};
use crate::token::TokenResponse;

verus! {

/// Where a login attempt stands.
#[derive(Clone, Copy, Debug, PartialEq, Eq, Structural)]
pub enum FlowPhase {
    /// No login was attempted yet.
    Idle,
    /// The local listener is bound and waits for the redirect.
    Listening,
    /// The redirect was accepted; the code is being exchanged for tokens.
    AwaitingExchange,
    Completed,
    Failed(AppError),
    Cancelled,
}

/// What belongs to one login attempt and to nothing else.
#[derive(Clone, Debug, PartialEq, Eq)]
pub struct OAuthFlowSession {
    /// The nonce that the redirect has to bring back.
    pub state_token: String,
    pub pkce_verifier: String,
    pub pkce_challenge: String,
    /// The loopback port of the listener.
    pub port: u16,
    /// The time from which on no redirect is accepted any more.
    pub deadline: i64,
}

/// The mathematical value of an [`OAuthFlowSession`].
pub ghost struct SessionView {
    pub state_token: Seq<char>,
    pub pkce_verifier: Seq<char>,
    pub pkce_challenge: Seq<char>,
    pub port: u16,
    pub deadline: i64,
}

impl View for OAuthFlowSession {
    type V = SessionView;

    open spec fn view(&self) -> SessionView {
        SessionView {
            state_token: self.state_token@,
            pkce_verifier: self.pkce_verifier@,
            pkce_challenge: self.pkce_challenge@,
            port: self.port,
            deadline: self.deadline,
        }
    }
}

/// What the caller does after a redirect request.
#[derive(Clone, Debug, PartialEq, Eq)]
pub enum RedirectOutcome {
    /// Stop listening and exchange the code, with the verifier, for tokens.
    Exchange { code: String, pkce_verifier: String },
    /// Stop listening: the attempt has failed.
    Rejected(AppError),
    /// No attempt was listening; nothing has changed.
    Ignored,
}

/// The mathematical value of a [`RedirectOutcome`].
pub ghost enum RedirectOutcomeView {
    Exchange { code: Seq<char>, pkce_verifier: Seq<char> },
    Rejected(AppError),
    Ignored,
}

impl View for RedirectOutcome {
    type V = RedirectOutcomeView;

    open spec fn view(&self) -> RedirectOutcomeView {
        match *self {
            RedirectOutcome::Exchange { code, pkce_verifier } => RedirectOutcomeView::Exchange {
                code: code@,
                pkce_verifier: pkce_verifier@,
            },
            RedirectOutcome::Rejected(e) => RedirectOutcomeView::Rejected(e),
            RedirectOutcome::Ignored => RedirectOutcomeView::Ignored,
        }
    }
}

/// The tokens that a completed login hands over.
#[derive(Clone, Debug, PartialEq, Eq)]
pub struct TokenGrant {
    pub access_token: String,
    pub refresh_token: String,
    pub expires_in: i64,
}

/// The mathematical value of a [`TokenGrant`].
pub ghost struct GrantView {
    pub access_token: Seq<char>,
    pub refresh_token: Seq<char>,
    pub expires_in: i64,
}

impl View for TokenGrant {
    type V = GrantView;

    open spec fn view(&self) -> GrantView {
        GrantView {
            access_token: self.access_token@,
            refresh_token: self.refresh_token@,
            expires_in: self.expires_in,
        }
    }
}

/// What an exchange comes to: the grant, where the endpoint answered with a
/// refresh token that is not empty; `AuthError` where it answered without
/// one; the error of the call where it failed.
pub open spec fn grant_of(outcome: Result<TokenResponse, AppError>) -> Result<
    GrantView,
    AppError,
> {
    match outcome {
        Ok(resp) => match resp.refresh_token {
            Some(t) => if t@.len() > 0 {
                Ok(
                    GrantView {
                        access_token: resp.access_token@,
                        refresh_token: t@,
                        expires_in: resp.expires_in,
                    },
                )
            } else {
                Err(AppError::AuthError)
            },
            None => Err(AppError::AuthError),
        },
        Err(e) => Err(e),
    }
}

/// Why a redirect request is turned down, if it is: it came after the
/// deadline; it brought a state token other than the session's; it reported
/// an error; it brought no state token; it brought no code.
pub open spec fn redirect_verdict(
    session: SessionView,
    code: Option<Seq<char>>,
    state: Option<Seq<char>>,
    error: Option<Seq<char>>,
    now: i64,
) -> Option<AppError> {
    if now >= session.deadline {
        Some(AppError::Timeout)
    } else if state is Some && state->Some_0 != session.state_token {
        Some(AppError::StateMismatch)
    } else if error is Some {
        Some(AppError::AuthError)
    } else if state is None {
        Some(AppError::StateMismatch)
    } else if code is None {
        Some(AppError::AuthError)
    } else {
        None
    }
}

/// The address that the browser is sent to: the authorization endpoint with
/// the request for a code, the client's id, the address of the local
/// listener, the scopes, the session's state token and its PKCE challenge.
pub open spec fn authorization_url_spec(
    endpoint: Seq<char>,
    client_id: Seq<char>,
    redirect_uri: Seq<char>,
    scopes: Seq<char>,
    state_token: Seq<char>,
    pkce_challenge: Seq<char>,
) -> Seq<char> {
    endpoint + "?response_type=code&client_id="@ + client_id + "&redirect_uri="@ + redirect_uri
        + "&scope="@ + scopes + "&state="@ + state_token + "&code_challenge="@ + pkce_challenge
        + "&code_challenge_method=S256"@
}

/// Builds the address that the browser is sent to for `session`. The parts
/// are put in as they are given: the caller escapes what a query string
/// cannot hold.
pub fn authorization_url(
    endpoint: &str,
    client_id: &str,
    redirect_uri: &str,
    scopes: &str,
    session: &OAuthFlowSession,
) -> (url: String)
    ensures
        url@ == authorization_url_spec(
            endpoint@,
            client_id@,
            redirect_uri@,
            scopes@,
            session@.state_token,
            session@.pkce_challenge,
        ),
{
    let mut url = String::from_str(endpoint);
    url.append("?response_type=code&client_id=");
    url.append(client_id);
    url.append("&redirect_uri=");
    url.append(redirect_uri);
    url.append("&scope=");
    url.append(scopes);
    url.append("&state=");
    url.append(session.state_token.as_str());
    url.append("&code_challenge=");
    url.append(session.pkce_challenge.as_str());
    url.append("&code_challenge_method=S256");
    url
}

/// The mathematical value of a [`FlowController`].
pub ghost struct FlowView {
    pub phase: FlowPhase,
    pub session: Option<SessionView>,
}

impl FlowView {
    /// A login attempt is under way.
    pub open spec fn is_active(self) -> bool {
        self.phase == FlowPhase::Listening || self.phase == FlowPhase::AwaitingExchange
    }

    /// The listener's port is held.
    pub open spec fn holds_port(self) -> bool {
        self.phase == FlowPhase::Listening
    }

    /// A session exists exactly while an attempt is under way.
    pub open spec fn wf(self) -> bool {
        self.session is Some <==> self.is_active()
    }

    /// The controller after an attempt has ended in `phase`.
    pub open spec fn ended(phase: FlowPhase) -> FlowView {
        FlowView { phase, session: None }
    }

    /// The controller after a start with `session`: unchanged while an
    /// attempt is under way, else listening for the new session.
    pub open spec fn start(self, session: SessionView) -> FlowView {
        if self.is_active() {
            self
        } else {
            FlowView { phase: FlowPhase::Listening, session: Some(session) }
        }
    }

    /// The controller and the answer after a redirect request.
    pub open spec fn after_redirect(
        self,
        code: Option<Seq<char>>,
        state: Option<Seq<char>>,
        error: Option<Seq<char>>,
        now: i64,
    ) -> (FlowView, RedirectOutcomeView) {
        if self.phase != FlowPhase::Listening || self.session is None {
            (self, RedirectOutcomeView::Ignored)
        } else {
            let session = self.session->Some_0;
            match redirect_verdict(session, code, state, error, now) {
                Some(e) => (Self::ended(FlowPhase::Failed(e)), RedirectOutcomeView::Rejected(e)),
                None => (
                    FlowView { phase: FlowPhase::AwaitingExchange, session: self.session },
                    RedirectOutcomeView::Exchange {
                        code: code->Some_0,
                        pkce_verifier: session.pkce_verifier,
                    },
                ),
            }
        }
    }

    /// The controller and what it hands over after the exchange: nothing
    /// unless an exchange was awaited.
    pub open spec fn after_exchange(self, outcome: Result<TokenResponse, AppError>) -> (
        FlowView,
        Option<Result<GrantView, AppError>>,
    ) {
        if self.phase != FlowPhase::AwaitingExchange {
            (self, None)
        } else {
            match grant_of(outcome) {
                Ok(grant) => (Self::ended(FlowPhase::Completed), Some(Ok(grant))),
                Err(e) => (Self::ended(FlowPhase::Failed(e)), Some(Err(e))),
            }
        }
    }

    /// The controller after a cancellation.
    pub open spec fn cancel(self) -> FlowView {
        if self.is_active() {
            Self::ended(FlowPhase::Cancelled)
        } else {
            self
        }
    }

    /// The controller after the clock was looked at.
    pub open spec fn after_deadline_check(self, now: i64) -> FlowView {
        if self.phase == FlowPhase::Listening && self.session is Some && now
            >= self.session->Some_0.deadline {
            Self::ended(FlowPhase::Failed(AppError::Timeout))
        } else {
            self
        }
    }
}

/// Drives one login attempt at a time through its phases. The caller binds
/// and closes the listener, opens the browser, waits and calls the token
/// endpoint, and reports what happened.
pub struct FlowController {
    phase: FlowPhase,
    session: Option<OAuthFlowSession>,
}

impl View for FlowController {
    type V = FlowView;

    closed spec fn view(&self) -> FlowView {
        FlowView {
            phase: self.phase,
            session: match self.session {
                Some(s) => Some(s@),
                None => None,
            },
        }
    }
}

impl FlowController {
    /// The controller's invariant.
    pub open spec fn wf(&self) -> bool {
        self@.wf()
    }

    /// A controller on which no login was attempted yet.
    pub fn new() -> (c: FlowController)
        ensures
            c.wf(),
            c@ == (FlowView { phase: FlowPhase::Idle, session: None }),
    {
        FlowController { phase: FlowPhase::Idle, session: None }
    }

    pub fn phase(&self) -> (p: FlowPhase)
        ensures
            p == self@.phase,
    {
        self.phase
    }

    /// Whether a login attempt is under way.
    pub fn is_active(&self) -> (b: bool)
        ensures
            b == self@.is_active(),
    {
        self.phase == FlowPhase::Listening || self.phase == FlowPhase::AwaitingExchange
    }

    /// The port that the listener holds, while it is listening.
    pub fn listener_port(&self) -> (p: Option<u16>)
        requires
            self.wf(),
        ensures
            p is Some <==> self@.holds_port(),
            p is Some ==> p->Some_0 == self@.session->Some_0.port,
    {
        match &self.session {
            Some(s) => if self.phase == FlowPhase::Listening {
                Some(s.port)
            } else {
                None
            },
            None => None,
        }
    }

    /// Begins a login attempt with `session`, whose listener the caller has
    /// bound. While an attempt is under way the call is refused: it returns
    /// `false` and the attempt under way is not touched.
    pub fn start(&mut self, session: OAuthFlowSession) -> (started: bool)
        requires
            old(self).wf(),
        ensures
            final(self).wf(),
            started == !old(self)@.is_active(),
            final(self)@ == old(self)@.start(session@),
    {
        if self.is_active() {
            false
        } else {
            self.phase = FlowPhase::Listening;
            self.session = Some(session);
            true
        }
    }

    /// Takes the one redirect request, received at `now`, with the query
    /// parameters it brought.
    pub fn on_redirect(
        &mut self,
        code: Option<String>,
        state: Option<String>,
        error: Option<String>,
        now: i64,
    ) -> (outcome: RedirectOutcome)
        requires
            old(self).wf(),
        ensures
            final(self).wf(),
            (final(self)@, outcome@) == old(self)@.after_redirect(
                text_of(code),
                text_of(state),
                text_of(error),
                now,
            ),
    {
        if self.phase != FlowPhase::Listening {
            return RedirectOutcome::Ignored;
        }
        let verdict = match &self.session {
            None => Some(AppError::StateMismatch),
            Some(session) => {
                let state_differs = match &state {
                    Some(s) => *s != session.state_token,
                    None => false,
                };
                if now >= session.deadline {
                    Some(AppError::Timeout)
                } else if state_differs {
                    Some(AppError::StateMismatch)
                } else if error.is_some() {
                    Some(AppError::AuthError)
                } else if state.is_none() {
                    Some(AppError::StateMismatch)
                } else if code.is_none() {
                    Some(AppError::AuthError)
                } else {
                    None
                }
            },
        };
        match verdict {
            Some(e) => {
                self.phase = FlowPhase::Failed(e);
                self.session = None;
                RedirectOutcome::Rejected(e)
            },
            None => {
                let pkce_verifier = match &self.session {
                    Some(session) => session.pkce_verifier.clone(),
                    None => String::new(),
                };
                self.phase = FlowPhase::AwaitingExchange;
                match code {
                    Some(code) => RedirectOutcome::Exchange { code, pkce_verifier },
                    None => RedirectOutcome::Ignored,
                }
            },
        }
    }

    /// Takes the one redirect request, received at `now`, by the query
    /// string of its target. The parameters are read as they stand: the
    /// caller decodes the code before it sends it on.
    pub fn on_redirect_query(&mut self, query: &str, now: i64) -> (outcome: RedirectOutcome)
        requires
            old(self).wf(),
        ensures
            final(self).wf(),
            (final(self)@, outcome@) == old(self)@.after_redirect(
                query_value_spec(query@, "code"@),
                query_value_spec(query@, "state"@),
                query_value_spec(query@, "error"@),
                now,
            ),
    {
        let params = parse_redirect(query);
        self.on_redirect(params.code, params.state, params.error, now)
    }

    /// Takes the outcome of the code exchange. Where an exchange was
    /// awaited, the attempt ends: completed, with the grant, or failed.
    /// Otherwise nothing is handed over and nothing changes.
    pub fn on_exchange(&mut self, outcome: Result<TokenResponse, AppError>) -> (r: Option<
        Result<TokenGrant, AppError>,
    >)
        requires
            old(self).wf(),
        ensures
            final(self).wf(),
            final(self)@ == old(self)@.after_exchange(outcome).0,
            match r {
                Some(Ok(grant)) => old(self)@.after_exchange(outcome).1 == Some(
                    Ok::<GrantView, AppError>(grant@),
                ),
                Some(Err(e)) => old(self)@.after_exchange(outcome).1 == Some(
                    Err::<GrantView, AppError>(e),
                ),
                None => old(self)@.after_exchange(outcome).1 is None,
            },
    {
        if self.phase != FlowPhase::AwaitingExchange {
            return None;
        }
        let result = match outcome {
            Err(e) => Err(e),
            Ok(resp) => match resp.refresh_token {
                None => Err(AppError::AuthError),
                Some(t) => if t.as_str().unicode_len() > 0 {
                    Ok(
                        TokenGrant {
                            access_token: resp.access_token,
                            refresh_token: t,
                            expires_in: resp.expires_in,
                        },
                    )
                } else {
                    Err(AppError::AuthError)
                },
            },
        };
        self.session = None;
        match result {
            Ok(grant) => {
                self.phase = FlowPhase::Completed;
                Some(Ok(grant))
            },
            Err(e) => {
                self.phase = FlowPhase::Failed(e);
                Some(Err(e))
            },
        }
    }

    /// Ends the attempt under way as timed out where it still listens at or
    /// after its deadline; says whether it did.
    pub fn check_deadline(&mut self, now: i64) -> (timed_out: bool)
        requires
            old(self).wf(),
        ensures
            final(self).wf(),
            final(self)@ == old(self)@.after_deadline_check(now),
            timed_out == (old(self)@.holds_port() && now >= old(self)@.session->Some_0.deadline),
    {
        let due = match &self.session {
            Some(session) => self.phase == FlowPhase::Listening && now >= session.deadline,
            None => false,
        };
        if due {
            self.phase = FlowPhase::Failed(AppError::Timeout);
            self.session = None;
        }
        due
    }

    /// Cancels the attempt under way; says whether there was one. Without
    /// one, nothing changes.
    pub fn cancel(&mut self) -> (cancelled: bool)
        requires
            old(self).wf(),
        ensures
            final(self).wf(),
            final(self)@ == old(self)@.cancel(),
            cancelled == old(self)@.is_active(),
    {
        if self.is_active() {
            self.phase = FlowPhase::Cancelled;
            self.session = None;
            true
        } else {
            false
        }
    }
}

/// A redirect that brings a state token other than the session's is turned
/// down, as a state mismatch where it came in time, and whatever the token
/// endpoint would answer afterwards, the controller hands over no grant: no
/// account can come of it.
pub proof fn lemma_state_mismatch_yields_no_grant(
    flow: FlowView,
    code: Option<Seq<char>>,
    state: Seq<char>,
    error: Option<Seq<char>>,
    now: i64,
    outcome: Result<TokenResponse, AppError>,
)
    requires
        flow.wf(),
        flow.phase == FlowPhase::Listening,
        state != flow.session->Some_0.state_token,
    ensures
        ({
            let (after, answer) = flow.after_redirect(code, Some(state), error, now);
            &&& after.phase == FlowPhase::Failed(
                if now >= flow.session->Some_0.deadline {
                    AppError::Timeout
                } else {
                    AppError::StateMismatch
                },
            )
            &&& answer is Rejected
            &&& !after.holds_port()
            &&& after.session is None
            &&& after.after_exchange(outcome) == (after, None::<Result<GrantView, AppError>>)
        }),
{
}

/// A listening controller takes one redirect request and no second one:
/// whatever the first one brought, the controller listens no longer, and a
/// further request is ignored.
pub proof fn lemma_only_one_redirect_is_taken(
    flow: FlowView,
    code: Option<Seq<char>>,
    state: Option<Seq<char>>,
    error: Option<Seq<char>>,
    now: i64,
    later_code: Option<Seq<char>>,
    later_state: Option<Seq<char>>,
    later_error: Option<Seq<char>>,
    later: i64,
)
    requires
        flow.wf(),
        flow.phase == FlowPhase::Listening,
    ensures
        ({
            let after = flow.after_redirect(code, state, error, now).0;
            &&& !after.holds_port()
            &&& after.after_redirect(later_code, later_state, later_error, later) == (
                after,
                RedirectOutcomeView::Ignored,
            )
        }),
{
}

/// A start while an attempt is under way changes nothing: the attempt, its
/// session and its listener stay as they were.
pub proof fn lemma_second_start_is_refused(flow: FlowView, session: SessionView)
    requires
        flow.is_active(),
    ensures
        flow.start(session) == flow,
{
}

/// Every way an attempt can end leaves the controller without a session and
/// without the listener's port.
pub proof fn lemma_port_released_on_every_exit(
    flow: FlowView,
    code: Option<Seq<char>>,
    state: Option<Seq<char>>,
    error: Option<Seq<char>>,
    now: i64,
    outcome: Result<TokenResponse, AppError>,
)
    requires
        flow.wf(),
    ensures
        !flow.cancel().holds_port() && flow.cancel().wf(),
        flow.phase == FlowPhase::AwaitingExchange ==> flow.after_exchange(outcome).0.session
            is None,
        flow.after_exchange(outcome).0.wf(),
        flow.after_redirect(code, state, error, now).0.wf(),
        flow.phase == FlowPhase::Listening ==> !flow.after_redirect(
            code,
            state,
            error,
            now,
        ).0.holds_port(),
        flow.after_deadline_check(now).wf(),
        flow.holds_port() && now >= flow.session->Some_0.deadline ==> !flow.after_deadline_check(
            now,
        ).holds_port(),
{
}

} // verus!
