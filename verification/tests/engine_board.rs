use chess_or_pass::board::{
    choose_promotion, move_indicators, promotion_indicators, promotion_roles, select_square,
    status_text,
};
use chess_or_pass::engine::{EngineStatus, MoveRow, Position, INITIAL_FEN};
use chess_or_pass::fen::fifty_move_reached;
use chess_or_pass::pieces::{piece_from_char, Color, Piece, Role};

fn play_all(pos: &mut Position, tokens: &[&str]) {
    for token in tokens {
        assert!(pos.play_token(token).is_ok(), "expected {token} to be legal");
    }
}

#[test]
fn initial_position_has_twenty_moves() {
    let pos = Position::initial();
    let rows = pos.legal_rows();
    assert_eq!(rows.len(), 20);
    assert!(rows.iter().any(|r| r.san == "e4"));
    assert!(rows.iter().any(|r| r.san == "Nf3"));
    assert!(pos.white_to_move());
    assert_eq!(pos.fen().as_str(), INITIAL_FEN);
}

#[test]
fn applying_a_legal_move_flips_the_turn_and_snapshot() {
    let mut pos = Position::initial();
    assert!(pos.play_token("e4").is_ok());
    assert!(!pos.white_to_move());
    assert_eq!(
        pos.fen().as_str(),
        "rnbqkbnr/pppppppp/8/8/4P3/8/PPPP1PPP/RNBQKBNR b KQkq - 0 1"
    );
}

#[test]
fn every_enumerated_move_applies() {
    let pos = Position::initial();
    for row in pos.legal_rows() {
        let next = pos.apply(&row.san);
        assert!(next.is_ok(), "enumerated move {} was rejected", row.san);
        assert!(!next.unwrap().white_to_move());
    }
}

#[test]
fn illegal_tokens_are_rejected_without_change() {
    let mut pos = Position::initial();
    let before = pos.fen().clone();
    assert!(pos.play_token("e5").is_err());
    assert!(pos.play_token("Ke2").is_err());
    assert!(pos.play_token("nonsense").is_err());
    assert!(pos.play_token("").is_err());
    assert_eq!(pos.fen(), &before);
    assert!(pos.white_to_move());
}

#[test]
fn fools_mate_is_a_black_win_with_no_moves_left() {
    let mut pos = Position::initial();
    play_all(&mut pos, &["f3", "e5", "g4", "Qh4#"]);
    assert_eq!(pos.status(), EngineStatus::BlackWins);
    assert_eq!(pos.outcome(), EngineStatus::BlackWins);
    assert!(pos.legal_rows().is_empty());
}

#[test]
fn scholars_mate_is_a_white_win() {
    let mut pos = Position::initial();
    play_all(&mut pos, &["e4", "e5", "Bc4", "Nc6", "Qh5", "Nf6", "Qxf7#"]);
    assert_eq!(pos.status(), EngineStatus::WhiteWins);
    assert!(pos.legal_rows().is_empty());
}

#[test]
fn en_passant_is_enumerated_and_applies() {
    let mut pos = Position::initial();
    play_all(&mut pos, &["e4", "a6", "e5", "d5"]);
    let rows = pos.legal_rows();
    assert!(rows.iter().any(|r| r.san == "exd6"));
    assert!(pos.play_token("exd6").is_ok());
}

#[test]
fn the_en_passant_window_closes_after_one_ply() {
    let mut pos = Position::initial();
    play_all(&mut pos, &["e4", "a6", "e5", "d5", "Nf3", "a5"]);
    // the capture was legal for exactly one ply after the double push
    assert!(pos.play_token("exd6").is_err());
    assert!(!pos.legal_rows().iter().any(|r| r.san == "exd6"));
}

#[test]
fn castling_shows_an_indicator_on_the_rook_square() {
    let mut pos = Position::initial();
    play_all(&mut pos, &["e4", "e5", "Nf3", "Nc6", "Bc4", "Bc5"]);
    let rows = pos.legal_rows();
    let castle: Vec<&MoveRow> = rows.iter().filter(|r| r.san == "O-O").collect();
    assert_eq!(castle.len(), 1);
    // the king stands on e1 (square 4), the rook on h1 (square 7)
    assert_eq!(castle[0].from, Some(4));
    assert_eq!(castle[0].to, 7);
    let indicators = move_indicators(&rows, 4);
    assert!(indicators.iter().any(|&k| rows[k].san == "O-O"));
    assert!(pos.play_token("O-O").is_ok());
}

#[test]
fn promotion_is_offered_in_two_steps_and_played_from_the_enumeration() {
    let mut pos = Position::initial();
    play_all(&mut pos, &["a4", "b5", "axb5", "a6", "bxa6", "Nc6", "a7", "Rb8"]);
    let rows = pos.legal_rows();
    // the pawn stands on a7 (square 48) and can promote by capturing on b8 (square 57)
    let targets = promotion_indicators(&rows, 48);
    assert!(targets.iter().any(|&k| rows[k].to == 57));
    // one indicator per reachable destination (a8 and b8), though each
    // destination is enumerated once per promotion role
    assert_eq!(targets.len(), 2);
    let mut roles = promotion_roles(&rows, 48, 57);
    roles.sort();
    assert_eq!(roles, vec!['b', 'n', 'q', 'r']);
    let chosen = choose_promotion(&rows, 48, 57, 'q').expect("queen promotion offered");
    assert_eq!(rows[chosen].san, "axb8=Q");
    assert!(pos.play_token(&rows[chosen].san).is_ok());
    assert!(pos.fen().starts_with("1Q"));
}

#[test]
fn selection_toggles_on_the_same_square() {
    assert_eq!(select_square(None, 12), Some(12));
    assert_eq!(select_square(Some(12), 12), None);
    assert_eq!(select_square(Some(12), 20), Some(20));
}

#[test]
fn move_indicators_pick_exactly_the_plain_moves_of_the_square() {
    let pos = Position::initial();
    let rows = pos.legal_rows();
    // the e2 pawn (square 12) can step to e3 (20) or e4 (28)
    let picks = move_indicators(&rows, 12);
    let mut squares: Vec<u8> = picks.iter().map(|&k| rows[k].to).collect();
    squares.sort();
    assert_eq!(squares, vec![20, 28]);
    // an empty square offers nothing
    assert!(move_indicators(&rows, 35).is_empty());
}

#[test]
fn board_pieces_reports_the_full_starting_army() {
    let pos = Position::initial();
    let cells = pos.board_pieces();
    assert_eq!(cells.len(), 32);
    assert!(cells.contains(&(4, 'K')));
    assert!(cells.contains(&(60, 'k')));
    assert_eq!(
        piece_from_char('K'),
        Some(Piece { color: Color::White, role: Role::King })
    );
    assert_eq!(piece_from_char('x'), None);
}

#[test]
fn status_text_matches_the_dialog_wording() {
    assert_eq!(status_text(EngineStatus::WhiteWins), "White Wins");
    assert_eq!(status_text(EngineStatus::BlackWins), "Black Wins");
    assert_eq!(status_text(EngineStatus::Stalemate), "Draw");
    assert_eq!(status_text(EngineStatus::Draw), "Draw");
    assert_eq!(status_text(EngineStatus::Ongoing), "");
}

#[test]
fn a_stalemate_is_reported_as_its_own_category() {
    // the shortest known stalemate: ten moves, black has no move and
    // is not in check
    let mut pos = Position::initial();
    play_all(
        &mut pos,
        &[
            "e3", "a5", "Qh5", "Ra6", "Qxa5", "h5", "Qxc7", "Rah6", "h4", "f6", "Qxd7+", "Kf7",
            "Qxb7", "Qd3", "Qxb8", "Qh7", "Qxc8", "Kg6", "Qe6",
        ],
    );
    assert_eq!(pos.status(), EngineStatus::Stalemate);
    assert_eq!(pos.outcome(), EngineStatus::Stalemate);
    assert!(pos.legal_rows().is_empty());
    assert_eq!(status_text(pos.status()), "Draw");
}

#[test]
fn fifty_move_threshold_is_read_from_the_snapshot() {
    assert!(fifty_move_reached("8/8/8/8/8/8/8/k6K w - - 100 80"));
    assert!(fifty_move_reached("8/8/8/8/8/8/8/k6K w - - 123 90"));
    assert!(!fifty_move_reached("8/8/8/8/8/8/8/k6K w - - 99 80"));
    assert!(!fifty_move_reached(INITIAL_FEN));
    assert!(!fifty_move_reached("not a snapshot"));
    assert!(!fifty_move_reached(""));
}
