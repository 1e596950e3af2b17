use araki::backends::{
    login_prompt_lines, poll_for_token, poll_step, PollStep, TokenResponse,
};

fn pending() -> TokenResponse {
    TokenResponse { error: Some("authorization_pending".to_string()), access_token: None }
}

fn granted(token: &str) -> TokenResponse {
    TokenResponse { error: None, access_token: Some(token.to_string()) }
}

fn errored(code: &str) -> TokenResponse {
    TokenResponse { error: Some(code.to_string()), access_token: None }
}

#[test]
fn scripted_poll_sleeps_twice_then_succeeds() {
    let script = vec![pending(), pending(), granted("T")];
    let run = poll_for_token(&script, 5);
    assert_eq!(run.sleeps, vec![5, 5]);
    assert_eq!(run.outcome, Some(Ok("T".to_string())));
}

#[test]
fn expired_token_fails_immediately_without_token() {
    let script = vec![errored("expired_token"), granted("T")];
    let run = poll_for_token(&script, 5);
    assert!(run.sleeps.is_empty());
    assert_eq!(
        run.outcome,
        Some(Err(
            "The GitHub token araki uses has expired. Please run `login` again.".to_string()
        ))
    );
}

#[test]
fn slow_down_waits_five_seconds_longer() {
    let script = vec![errored("slow_down"), granted("T")];
    let run = poll_for_token(&script, 7);
    assert_eq!(run.sleeps, vec![12]);
    assert_eq!(run.outcome, Some(Ok("T".to_string())));
}

#[test]
fn access_denied_is_a_terminal_failure() {
    let run = poll_for_token(&vec![errored("access_denied")], 5);
    assert!(run.sleeps.is_empty());
    assert_eq!(run.outcome, Some(Err("Login cancelled by user.".to_string())));
}

#[test]
fn unknown_error_code_is_surfaced_verbatim() {
    let run = poll_for_token(&vec![errored("incorrect_device_code")], 5);
    assert_eq!(
        run.outcome,
        Some(Err("Error getting araki github app token: incorrect_device_code".to_string()))
    );
}

#[test]
fn success_without_token_is_a_protocol_error() {
    let bad = TokenResponse { error: None, access_token: None };
    let run = poll_for_token(&vec![bad], 5);
    assert_eq!(
        run.outcome,
        Some(Err("Unexpected response while getting a GitHub user access token".to_string()))
    );
}

#[test]
fn exhausted_script_reports_no_outcome() {
    let run = poll_for_token(&vec![pending()], 5);
    assert_eq!(run.sleeps, vec![5]);
    assert!(run.outcome.is_none());
}

#[test]
fn single_step_decisions_match_the_loop() {
    match poll_step(&pending(), 3) {
        PollStep::Wait(n) => assert_eq!(n, 3),
        other => panic!("unexpected step: {:?}", other),
    }
    match poll_step(&granted("tok"), 3) {
        PollStep::Success(t) => assert_eq!(t.as_str(), "tok"),
        other => panic!("unexpected step: {:?}", other),
    }
}

#[test]
fn prompt_lines_carry_uri_and_code() {
    let (visit, code) = login_prompt_lines("https://github.com/login/device", "ABCD-1234");
    assert_eq!(visit.as_str(), "Please visit: https://github.com/login/device");
    assert_eq!(code.as_str(), "and enter code: ABCD-1234");
}
