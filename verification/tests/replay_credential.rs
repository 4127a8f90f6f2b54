use chess_or_pass::credential::{
    credentials_equal, hash_fen_with_salt, register_commit, verify_login, MIN_PASSWORD_LENGTH,
};
use chess_or_pass::error::Error;
use chess_or_pass::session::{check_chess_moves, validate, GameSession, LogEntry};

fn recorded_log(tokens: &[&str]) -> Vec<LogEntry> {
    let mut session = GameSession::start();
    for token in tokens {
        assert!(session.play(token).is_ok(), "expected {token} to be legal");
    }
    session.into_log()
}

#[test]
fn a_recorded_game_replays_and_validates() {
    // scenario: the four half-moves e4, e5, Nf3, Nc6
    let log = recorded_log(&["e4", "e5", "Nf3", "Nc6"]);
    assert_eq!(log.len(), 4);
    assert!(check_chess_moves(&log));
    assert!(validate(&log).is_ok());
}

#[test]
fn an_empty_log_is_rejected_as_too_short() {
    let log: Vec<LogEntry> = Vec::new();
    assert_eq!(validate(&log), Err(Error::PasswordTooShort));
    assert!(!check_chess_moves(&log));
    let stored: Vec<Vec<u8>> = Vec::new();
    assert_eq!(verify_login(&log, "salty", &stored), Err(Error::PasswordTooShort));
    assert!(matches!(
        register_commit("user".to_string(), &log),
        Err(Error::PasswordTooShort)
    ));
}

#[test]
fn tampering_with_one_snapshot_character_is_detected() {
    let log = recorded_log(&["e4", "e5", "Nf3", "Nc6"]);
    let mut tampered = log.clone();
    let mut snapshot = tampered[2].snapshot.clone();
    // flip the first character of the third snapshot
    let flipped = if snapshot.starts_with('r') { "n" } else { "r" };
    snapshot.replace_range(0..1, flipped);
    tampered[2].snapshot = snapshot;
    assert!(!check_chess_moves(&tampered));
    assert_eq!(validate(&tampered), Err(Error::ImpossibleChessGame));
}

#[test]
fn a_log_with_an_illegal_token_is_rejected() {
    let mut log = recorded_log(&["e4", "e5", "Nf3", "Nc6"]);
    log[1].token = "Ke7".to_string();
    assert!(!check_chess_moves(&log));
    assert_eq!(validate(&log), Err(Error::ImpossibleChessGame));
}

#[test]
fn derivation_is_deterministic_and_local() {
    let snapshots = vec![
        "first snapshot".to_string(),
        "second snapshot".to_string(),
        "third snapshot".to_string(),
    ];
    let once = hash_fen_with_salt(&snapshots, "salt1");
    let twice = hash_fen_with_salt(&snapshots, "salt1");
    assert!(credentials_equal(&once, &twice));
    assert_eq!(once.len(), 3);
    assert_eq!(once[0].len(), 32);

    // changing one snapshot changes exactly that digest
    let mut changed = snapshots.clone();
    changed[1] = "second snapshot altered".to_string();
    let after = hash_fen_with_salt(&changed, "salt1");
    assert_eq!(once[0], after[0]);
    assert_ne!(once[1], after[1]);
    assert_eq!(once[2], after[2]);

    // a different salt changes every digest
    let salted = hash_fen_with_salt(&snapshots, "salt2");
    assert_ne!(once[0], salted[0]);
    assert_ne!(once[1], salted[1]);
    assert_ne!(once[2], salted[2]);
}

#[test]
fn credential_equality_is_order_sensitive() {
    // two games that reach the same final army by different move orders
    let first = recorded_log(&["e4", "e5", "Nf3", "Nc6"]);
    let second = recorded_log(&["Nf3", "Nc6", "e4", "e5"]);
    let first_snaps: Vec<String> = first.iter().map(|e| e.snapshot.clone()).collect();
    let second_snaps: Vec<String> = second.iter().map(|e| e.snapshot.clone()).collect();
    let d1 = hash_fen_with_salt(&first_snaps, "pepper");
    let d2 = hash_fen_with_salt(&second_snaps, "pepper");
    assert!(!credentials_equal(&d1, &d2));
}

#[test]
fn commit_then_login_round_trips() {
    let log = recorded_log(&["e4", "e5", "Nf3", "Nc6"]);
    let record = register_commit("alice".to_string(), &log).expect("commit accepted");
    assert_eq!(record.username, "alice");
    assert_eq!(record.salt.len(), 5);
    assert_eq!(record.user_id.len(), 24);
    assert_eq!(record.digests.len(), 4);
    assert!(record.digests.iter().all(|d| d.len() == 32));
    assert!(verify_login(&log, &record.salt, &record.digests).is_ok());
}

#[test]
fn a_single_differing_digest_gives_the_generic_mismatch() {
    // scenario: a legally replayable attempt whose derived digests differ
    // from the stored ones in exactly one entry
    let log = recorded_log(&["e4", "e5", "Nf3", "Nc6"]);
    let record = register_commit("carol".to_string(), &log).expect("commit accepted");
    let mut stored = record.digests.clone();
    stored[2][0] ^= 1;
    assert_eq!(
        verify_login(&log, &record.salt, &stored),
        Err(Error::WrongPassword)
    );
}

#[test]
fn a_short_game_cannot_commit() {
    let log = recorded_log(&["e4", "e5", "Nf3"]);
    assert!(log.len() < MIN_PASSWORD_LENGTH);
    assert!(matches!(
        register_commit("bob".to_string(), &log),
        Err(Error::PasswordTooShort)
    ));
}

#[test]
fn an_unreplayable_commit_is_an_impossible_game() {
    let mut log = recorded_log(&["e4", "e5", "Nf3", "Nc6"]);
    log[3].token = "Qh5".to_string();
    assert!(matches!(
        register_commit("dave".to_string(), &log),
        Err(Error::ImpossibleChessGame)
    ));
}

#[test]
fn login_with_the_wrong_game_is_a_wrong_password() {
    let log = recorded_log(&["e4", "e5", "Nf3", "Nc6"]);
    let record = register_commit("erin".to_string(), &log).expect("commit accepted");
    let other = recorded_log(&["d4", "d5", "Nf3", "Nf6"]);
    assert_eq!(
        verify_login(&other, &record.salt, &record.digests),
        Err(Error::WrongPassword)
    );
}
