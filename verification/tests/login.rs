use simplex_core::login::{login_status_text, LoginOutcome, PinPoll, PollStep, PIN_POLL_LIMIT};

#[test]
fn polling_gives_up_at_the_limit() {
    let mut poll = PinPoll::new();
    for _ in 0..PIN_POLL_LIMIT - 1 {
        assert!(matches!(poll.record(None), PollStep::Wait));
    }
    assert!(matches!(poll.record(None), PollStep::TimedOut));
    assert_eq!(poll.polls, 150);
}

#[test]
fn a_token_signs_in() {
    let mut poll = PinPoll::new();
    assert!(matches!(poll.record(None), PollStep::Wait));
    match poll.record(Some("tok".to_string())) {
        PollStep::SignedIn(t) => assert_eq!(t, "tok"),
        _ => panic!("expected to sign in"),
    }
}

#[test]
fn status_texts() {
    assert_eq!(login_status_text(&LoginOutcome::Success), "Authentication successful!");
    assert_eq!(login_status_text(&LoginOutcome::TimedOut), "Authentication timed out. Please try again.");
    assert_eq!(login_status_text(&LoginOutcome::Failed("boom".into())), "boom");
}
