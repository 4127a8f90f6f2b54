use chess_or_pass::error::Error;
use chess_or_pass::flow::{
    confirm_entry_matches, logs_equal, LoginFlow, RegisterFlow,
};
use chess_or_pass::session::{GameSession, LogEntry};

fn recorded_log(tokens: &[&str]) -> Vec<LogEntry> {
    let mut session = GameSession::start();
    for token in tokens {
        assert!(session.play(token).is_ok(), "expected {token} to be legal");
    }
    session.into_log()
}

fn play_flow(mut flow: RegisterFlow, tokens: &[&str]) -> RegisterFlow {
    for token in tokens {
        let (next, accepted) = flow.play_move(token);
        assert!(accepted, "expected {token} to be accepted");
        flow = next;
    }
    flow
}

#[test]
fn a_taken_username_stays_at_the_username_step() {
    let flow = RegisterFlow::start();
    let flow = flow.submit_username("alice".to_string(), true);
    assert!(matches!(flow, RegisterFlow::CollectingUsername));
}

#[test]
fn a_free_username_starts_the_first_game() {
    let flow = RegisterFlow::start().submit_username("alice".to_string(), false);
    match &flow {
        RegisterFlow::PlayingFirstGame { username, session } => {
            assert_eq!(username.as_str(), "alice");
            assert_eq!(session.len(), 0);
        }
        other => panic!("unexpected state {other:?}"),
    }
}

#[test]
fn the_first_game_must_reach_the_minimum_before_continuing() {
    let flow = RegisterFlow::start().submit_username("alice".to_string(), false);
    let flow = play_flow(flow, &["e4", "e5", "Nf3"]);
    let flow = flow.continue_first();
    assert!(matches!(flow, RegisterFlow::PlayingFirstGame { .. }));
    let flow = play_flow(flow, &["Nc6"]);
    let flow = flow.continue_first();
    assert!(matches!(flow, RegisterFlow::PlayingConfirmationGame { .. }));
}

#[test]
fn an_illegal_move_is_not_recorded() {
    let flow = RegisterFlow::start().submit_username("alice".to_string(), false);
    let flow = play_flow(flow, &["e4"]);
    let (flow, accepted) = flow.play_move("e4");
    assert!(!accepted);
    match &flow {
        RegisterFlow::PlayingFirstGame { session, .. } => assert_eq!(session.len(), 1),
        other => panic!("unexpected state {other:?}"),
    }
}

#[test]
fn the_confirmation_mismatch_is_reported_exactly_at_the_diverging_half_move() {
    // scenario: the second attempt matches for two half-moves and
    // diverges at the third
    let flow = RegisterFlow::start().submit_username("bob".to_string(), false);
    let flow = play_flow(flow, &["e4", "e5", "Nf3", "Nc6"]);
    let flow = flow.continue_first();

    let flow = play_flow(flow, &["e4"]);
    assert!(flow.confirmation_matches());
    let flow = play_flow(flow, &["e5"]);
    assert!(flow.confirmation_matches());
    let flow = play_flow(flow, &["Nc3"]);
    assert!(!flow.confirmation_matches());
    assert!(!flow.confirmation_complete());

    // retrying preserves the first game's log for the next attempt
    let first_before = match &flow {
        RegisterFlow::PlayingConfirmationGame { first_log, .. } => first_log.clone(),
        other => panic!("unexpected state {other:?}"),
    };
    let flow = flow.retry_confirmation();
    match &flow {
        RegisterFlow::PlayingConfirmationGame { first_log, session, .. } => {
            assert!(logs_equal(first_log, &first_before));
            assert_eq!(session.len(), 0);
        }
        other => panic!("unexpected state {other:?}"),
    }
}

#[test]
fn a_strict_prefix_does_not_complete_the_confirmation() {
    let flow = RegisterFlow::start().submit_username("carol".to_string(), false);
    let flow = play_flow(flow, &["e4", "e5", "Nf3", "Nc6"]);
    let flow = flow.continue_first();
    let flow = play_flow(flow, &["e4", "e5", "Nf3"]);
    assert!(flow.confirmation_matches());
    assert!(!flow.confirmation_complete());
    // finishing early leaves the flow in the confirmation game
    let flow = flow.finish_confirmation();
    assert!(matches!(flow, RegisterFlow::PlayingConfirmationGame { .. }));
}

#[test]
fn a_full_matching_confirmation_commits_the_first_game() {
    let tokens = ["e4", "e5", "Nf3", "Nc6"];
    let flow = RegisterFlow::start().submit_username("dora".to_string(), false);
    let flow = play_flow(flow, &tokens);
    let flow = flow.continue_first();
    let flow = play_flow(flow, &tokens);
    assert!(flow.confirmation_matches());
    assert!(flow.confirmation_complete());
    let flow = flow.finish_confirmation();
    match &flow {
        RegisterFlow::Committed { username, final_log } => {
            assert_eq!(username.as_str(), "dora");
            assert!(logs_equal(final_log, &recorded_log(&tokens)));
        }
        other => panic!("unexpected state {other:?}"),
    }
}

#[test]
fn confirm_entry_matches_compares_only_the_newest_entry() {
    let first = recorded_log(&["e4", "e5", "Nf3"]);
    let empty: Vec<LogEntry> = Vec::new();
    assert!(confirm_entry_matches(&first, &empty));
    let two = recorded_log(&["e4", "e5"]);
    assert!(confirm_entry_matches(&first, &two));
    let diverged = recorded_log(&["e4", "e5", "Nc3"]);
    assert!(!confirm_entry_matches(&first, &diverged));
    let too_long = recorded_log(&["e4", "e5", "Nf3", "Nc6"]);
    assert!(!confirm_entry_matches(&first, &too_long));
}

#[test]
fn the_login_flow_loops_on_a_wrong_password_and_ends_on_success() {
    let flow = LoginFlow::start().submit_username("erin".to_string());
    assert!(matches!(flow, LoginFlow::PlayingLoginGame { .. }));
    let (flow, accepted) = flow.play_move("e4");
    assert!(accepted);
    let flow = flow.finish_game();
    match &flow {
        LoginFlow::VerifyingResult { username, attempt_log } => {
            assert_eq!(username.as_str(), "erin");
            assert_eq!(attempt_log.len(), 1);
        }
        other => panic!("unexpected state {other:?}"),
    }
    let flow = flow.resolve(Err(Error::WrongPassword));
    match &flow {
        LoginFlow::PlayingLoginGame { username, session } => {
            assert_eq!(username.as_str(), "erin");
            assert_eq!(session.len(), 0);
        }
        other => panic!("unexpected state {other:?}"),
    }
    let flow = flow.finish_game();
    let flow = flow.resolve(Ok("user-id-1".to_string()));
    match &flow {
        LoginFlow::LoggedIn { user_id } => assert_eq!(user_id.as_str(), "user-id-1"),
        other => panic!("unexpected state {other:?}"),
    }
    // any other failure returns to the username step
    let flow = LoginFlow::start()
        .submit_username("erin".to_string())
        .finish_game()
        .resolve(Err(Error::Database("down".to_string())));
    assert!(matches!(flow, LoginFlow::CollectingUsername));
}
