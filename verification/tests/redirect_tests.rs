use account_lifecycle::error::AppError;
use account_lifecycle::oauth::{FlowController, FlowPhase, OAuthFlowSession, RedirectOutcome};
use account_lifecycle::redirect::{parse_redirect, query_value, RedirectParams};

fn some(s: &str) -> Option<String> {
    Some(s.to_string())
}

fn listening() -> FlowController {
    let mut c = FlowController::new();
    c.start(OAuthFlowSession {
        state_token: "s1".to_string(),
        pkce_verifier: "verifier".to_string(),
        pkce_challenge: "challenge".to_string(),
        port: 4000,
        deadline: 1_000,
    });
    c
}

#[test]
fn query_value_finds_each_parameter() {
    assert_eq!(query_value("code=abc&state=xyz", "code"), some("abc"));
    assert_eq!(query_value("code=abc&state=xyz", "state"), some("xyz"));
    assert_eq!(query_value("code=abc&state=xyz", "error"), None);
}

#[test]
fn query_value_takes_the_first_pair_of_a_name() {
    assert_eq!(query_value("a=1&a=2", "a"), some("1"));
    assert_eq!(query_value("b=0&a=&a=2", "a"), some(""));
}

#[test]
fn query_value_parts_a_pair_at_its_first_equals_sign() {
    assert_eq!(query_value("code=a=b&x=1", "code"), some("a=b"));
    assert_eq!(query_value("=v", ""), some("v"));
}

#[test]
fn query_value_of_a_pair_without_value_is_empty() {
    assert_eq!(query_value("flag&x=1", "flag"), some(""));
    assert_eq!(query_value("x=1&flag", "flag"), some(""));
    assert_eq!(query_value("flag&x=1", "fla"), None);
}

#[test]
fn query_value_on_an_empty_query() {
    assert_eq!(query_value("", "code"), None);
    assert_eq!(query_value("", ""), some(""));
    assert_eq!(query_value("&&", "code"), None);
}

#[test]
fn query_value_does_not_match_a_name_inside_another() {
    assert_eq!(query_value("xcode=1&codex=2&code=3", "code"), some("3"));
    assert_eq!(query_value("state=code", "code"), None);
}

#[test]
fn query_value_counts_characters_not_bytes() {
    assert_eq!(query_value("n\u{e9}=\u{e4}\u{f6}&code=\u{20ac}1", "code"), some("\u{20ac}1"));
    assert_eq!(query_value("n\u{e9}=\u{e4}\u{f6}&code=1", "n\u{e9}"), some("\u{e4}\u{f6}"));
}

#[test]
fn query_value_leaves_escapes_as_they_stand() {
    assert_eq!(query_value("code=4%2F0A&state=s1", "code"), some("4%2F0A"));
}

#[test]
fn parse_redirect_reads_code_state_and_error() {
    assert_eq!(
        parse_redirect("state=s1&code=c1&scope=email"),
        RedirectParams { code: some("c1"), state: some("s1"), error: None }
    );
    assert_eq!(
        parse_redirect("error=access_denied&state=s1"),
        RedirectParams { code: None, state: some("s1"), error: some("access_denied") }
    );
}

#[test]
fn redirect_query_with_the_right_state_asks_for_the_exchange() {
    let mut c = listening();
    assert_eq!(
        c.on_redirect_query("code=c1&state=s1", 10),
        RedirectOutcome::Exchange { code: "c1".to_string(), pkce_verifier: "verifier".to_string() }
    );
    assert_eq!(c.phase(), FlowPhase::AwaitingExchange);
}

#[test]
fn redirect_query_with_a_forged_state_is_a_mismatch() {
    let mut c = listening();
    assert_eq!(
        c.on_redirect_query("code=c1&state=s2", 10),
        RedirectOutcome::Rejected(AppError::StateMismatch)
    );
    assert_eq!(c.phase(), FlowPhase::Failed(AppError::StateMismatch));
    let mut d = listening();
    assert_eq!(
        d.on_redirect_query("code=c1&state=s1x", 10),
        RedirectOutcome::Rejected(AppError::StateMismatch)
    );
    let mut e = listening();
    assert_eq!(
        e.on_redirect_query("error=denied&state=sX", 10),
        RedirectOutcome::Rejected(AppError::StateMismatch)
    );
}

#[test]
fn redirect_query_with_an_error_fails_the_flow() {
    let mut c = listening();
    assert_eq!(
        c.on_redirect_query("error=access_denied&state=s1", 10),
        RedirectOutcome::Rejected(AppError::AuthError)
    );
    let mut d = listening();
    assert_eq!(d.on_redirect_query("error=access_denied", 10), RedirectOutcome::Rejected(AppError::AuthError));
}
