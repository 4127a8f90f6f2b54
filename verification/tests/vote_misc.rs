use chess_or_pass::error::Error;
use chess_or_pass::pieces::{piece_to_img, Color, Piece, Pieces, Role};
use chess_or_pass::vote::{
    feed_window, get_vote_candidates, grow_feed_length, prepare_vote, Vote, PAGE_SIZE,
};

#[test]
fn vote_candidates_are_always_distinct() {
    for _ in 0..100 {
        let (first, second) = get_vote_candidates();
        assert_ne!(first, second);
    }
}

#[test]
fn the_roster_lists_every_chessman_once() {
    let all = Pieces::all();
    assert_eq!(all.len(), 12);
    for i in 0..all.len() {
        for j in 0..i {
            assert_ne!(all[i], all[j]);
        }
    }
}

#[test]
fn pieces_convert_both_ways_without_loss() {
    for piece in Pieces::all() {
        let engine_piece: Piece = piece.into();
        let back: Pieces = engine_piece.into();
        assert_eq!(piece, back);
    }
    let white_king = Piece { color: Color::White, role: Role::King };
    assert_eq!(Pieces::from(white_king), Pieces::WK);
    assert_eq!(Piece::from(Pieces::BQ), Piece { color: Color::Black, role: Role::Queen });
}

#[test]
fn piece_images_follow_the_asset_naming() {
    assert_eq!(
        piece_to_img(&Piece { color: Color::Black, role: Role::Pawn }),
        "/pieces/bp.png"
    );
    assert_eq!(
        piece_to_img(&Piece { color: Color::White, role: Role::Queen }),
        "/pieces/wq.png"
    );
    assert_eq!(
        piece_to_img(&Piece { color: Color::White, role: Role::Knight }),
        "/pieces/wn.png"
    );
}

#[test]
fn a_vote_needs_a_user_and_a_choice() {
    assert!(prepare_vote(None, Pieces::BB, Pieces::WQ, Some(true), "nice".to_string()).is_none());
    assert!(prepare_vote(
        Some("id1".to_string()),
        Pieces::BB,
        Pieces::WQ,
        None,
        "nice".to_string()
    )
    .is_none());
    let vote = prepare_vote(
        Some("id1".to_string()),
        Pieces::BB,
        Pieces::WQ,
        Some(false),
        String::new(),
    )
    .expect("complete submission");
    assert_eq!(vote.user_id, "id1");
    assert_eq!(vote.first_piece, Pieces::BB);
    assert_eq!(vote.second_piece, Pieces::WQ);
    assert!(!vote.voted_for_first);
    assert!(vote.reason.is_none());
    let with_reason = prepare_vote(
        Some("id2".to_string()),
        Pieces::WN,
        Pieces::BR,
        Some(true),
        "knights are neat".to_string(),
    )
    .expect("complete submission");
    assert_eq!(with_reason.reason.as_deref(), Some("knights are neat"));
}

#[test]
fn the_feed_grows_one_page_at_a_time() {
    assert_eq!(PAGE_SIZE, 20);
    assert_eq!(grow_feed_length(PAGE_SIZE), 40);
    assert_eq!(feed_window(0, 20), (20, 0));
    assert_eq!(feed_window(20, 40), (20, 20));
}

#[test]
fn a_vote_record_carries_its_fields() {
    let vote = Vote {
        id: "v1".to_string(),
        username: "alice".to_string(),
        first_piece: Pieces::WN,
        second_piece: Pieces::BB,
        voted_for_first: true,
        reason: None,
        created_at: 1_700_000_000,
    };
    assert_eq!(vote.username, "alice");
    assert!(vote.voted_for_first);
}

#[test]
fn error_messages_are_short_and_generic() {
    assert_eq!(Error::WrongPassword.message(), "The password is incorrect");
    assert_eq!(Error::PasswordTooShort.message(), "The password is too short");
    assert_eq!(
        Error::ImpossibleChessGame.message(),
        "An impossible chess game was attempted"
    );
    // a mismatch never reveals where the attempt diverged
    assert!(!Error::WrongPassword.message().contains("move"));
}
