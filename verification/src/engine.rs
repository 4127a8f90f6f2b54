//! The position engine.
//!
//! A chess position is carried as its canonical snapshot string (the FEN
//! text that the move recorder also stores in the game log), so that the
//! whole protocol layer works on plain values. Move generation, move
//! application and outcome detection are delegated to the `shakmaty` crate
//! behind trusted wrappers; everything layered on top of them is verified
//! against the names [`san_apply`], [`legal_sans`] and [`engine_status`]
//! for those deterministic results.
//!
//! A move is identified by its notation token (standard algebraic
//! notation). The engine enumerates the legal tokens of a position
//! together with the origin square, target square and promotion role of
//! each move, which is all the data a board front end needs to offer the
//! move; applying a chosen token re-validates it in full, so the engine
//! never trusts a caller's legality claim.

use vstd::prelude::*;

use shakmaty::Position as _;

use crate::fen::spec_fifty_move;

verus! {

/// The canonical snapshot of the standard chess starting position, with
/// white to move and all castling rights intact.
pub const INITIAL_FEN: &'static str = "rnbqkbnr/pppppppp/8/8/8/8/PPPPPPPP/RNBQKBNR w KQkq - 0 1";

/// What applying a notation token to the position denoted by a snapshot
/// yields: the canonical snapshot of the resulting position, or nothing
/// when the snapshot denotes no position or the token denotes no move
/// that is legal there. The result is a function of the two strings
/// alone.
pub uninterp spec fn san_apply(fen: Seq<char>, token: Seq<char>) -> Option<Seq<char>>;

/// The notation tokens of the legal moves of the position denoted by a
/// snapshot, in the engine's enumeration order; empty when the snapshot
/// denotes no position. A function of the snapshot alone.
pub uninterp spec fn legal_sans(fen: Seq<char>) -> Seq<Seq<char>>;

/// What the engine reports of the position denoted by a snapshot:
/// decided, stalemated, drawn on the board, or still ongoing. A
/// function of the snapshot alone.
pub uninterp spec fn engine_status(fen: Seq<char>) -> EngineStatus;

/// What the engine itself can say about a position: a win once the side
/// to move is checkmated, stalemate once it has no move but is not in
/// check, a draw for insufficient material, and ongoing otherwise. The
/// fifty-move rule is layered on top by [`Position::outcome`], which
/// reads the half-move clock of the snapshot and reports `Draw` once
/// the rule applies; threefold repetition is not tracked at all, a
/// known simplification of the full draw rules.
#[derive(Clone, Copy, Debug, PartialEq, Eq, Structural)]
pub enum EngineStatus {
    Ongoing,
    WhiteWins,
    BlackWins,
    Stalemate,
    Draw,
}

/// One legal move, described by plain values: the origin square and
/// target square (0 is a1, 63 is h8; for castling the king's square and
/// the rook's square), the promotion role as its lower-case letter if the
/// move promotes, and the notation token that [`Position::play_token`]
/// accepts for it.
#[derive(Clone, Debug)]
pub struct MoveRow {
    pub from: Option<u8>,
    pub to: u8,
    pub promotion: Option<char>,
    pub san: String,
}

/// Relies on `shakmaty`: `Fen::from_str` and `Fen::into_position` read
/// the position, `San::from_ascii` and `San::to_move` resolve the token
/// to a unique legal move, `Position::play` applies it, and
/// `Fen::from_position` with `EnPassantMode::Legal` writes the canonical
/// snapshot of the result. Every step is a deterministic function of the
/// two arguments, named by `san_apply`.
#[verifier::external_body]
fn san_play(fen: &str, token: &str) -> (r: Option<String>)
    ensures
        r is Some <==> san_apply(fen@, token@) is Some,
        r matches Some(g) ==> san_apply(fen@, token@) matches Some(s) && g@ == s,
{
    let pos: shakmaty::Chess = fen
        .parse::<shakmaty::fen::Fen>()
        .ok()?
        .into_position(shakmaty::CastlingMode::Standard)
        .ok()?;
    let san = shakmaty::san::San::from_ascii(token.as_bytes()).ok()?;
    let m = san.to_move(&pos).ok()?;
    let next = pos.play(m).ok()?;
    Some(shakmaty::fen::Fen::from_position(&next, shakmaty::EnPassantMode::Legal).to_string())
}

/// Relies on `shakmaty`: `Position::legal_moves` enumerates exactly the
/// legal moves of the position, `San::from_move` writes the unambiguous
/// token of each (which `San::to_move` resolves back to that same move,
/// so the token applies successfully), and `Move::from`, `Move::to` and
/// `Move::promotion` read the squares — always board indices below 64 —
/// and the promotion role. The token list is named by `legal_sans`.
#[verifier::external_body]
fn legal_rows_raw(fen: &str) -> (rows: Vec<MoveRow>)
    ensures
        rows@.map_values(|row: MoveRow| row.san@) == legal_sans(fen@),
        forall|k: int|
            0 <= k < rows@.len() ==> san_apply(fen@, #[trigger] rows@[k].san@) is Some,
        forall|k: int|
            0 <= k < rows@.len() ==> (#[trigger] rows@[k].to < 64 && (rows@[k].from matches Some(f)
                ==> f < 64)),
{
    let parsed = fen.parse::<shakmaty::fen::Fen>().ok();
    let pos: shakmaty::Chess = match parsed.and_then(|f| f.into_position(shakmaty::CastlingMode::Standard).ok()) {
        Some(p) => p,
        None => return Vec::new(),
    };
    pos.legal_moves().iter().map(|m| MoveRow {
        from: m.from().map(u8::from),
        to: u8::from(m.to()),
        promotion: m.promotion().map(shakmaty::Role::char),
        san: shakmaty::san::San::from_move(&pos, *m).to_string(),
    }).collect()
}

/// Relies on `shakmaty`: `Position::outcome` reports a decisive result
/// exactly for checkmate (won by the side that delivered it) and a
/// known draw exactly for stalemate or insufficient material, otherwise
/// unknown; `Position::is_stalemate` tells the two draws apart. The
/// report is a deterministic function of the position, named by
/// `engine_status`.
#[verifier::external_body]
fn engine_status_of(fen: &str) -> (r: EngineStatus)
    ensures
        r == engine_status(fen@),
{
    let parsed = fen.parse::<shakmaty::fen::Fen>().ok();
    let p: shakmaty::Chess = match parsed.and_then(|f| f.into_position(shakmaty::CastlingMode::Standard).ok()) {
        Some(p) => p,
        None => return EngineStatus::Ongoing,
    };
    match p.outcome() {
        shakmaty::Outcome::Known(shakmaty::KnownOutcome::Decisive { winner: shakmaty::Color::White }) => EngineStatus::WhiteWins,
        shakmaty::Outcome::Known(shakmaty::KnownOutcome::Decisive { winner: shakmaty::Color::Black }) => EngineStatus::BlackWins,
        shakmaty::Outcome::Known(shakmaty::KnownOutcome::Draw) if p.is_stalemate() => EngineStatus::Stalemate,
        shakmaty::Outcome::Known(shakmaty::KnownOutcome::Draw) => EngineStatus::Draw,
        shakmaty::Outcome::Unknown => EngineStatus::Ongoing,
    }
}

/// The pieces standing on the board of the position denoted by a
/// snapshot, as (square, letter) pairs in the engine's iteration order
/// — the letter is the piece's English initial, upper case for white —
/// and empty when the snapshot denotes no position. A function of the
/// snapshot alone.
pub uninterp spec fn board_cells(fen: Seq<char>) -> Seq<(u8, char)>;

/// Relies on `shakmaty`: `Position::board` holds the pieces of the
/// position, iterated as (square, piece) pairs whose squares are board
/// indices below 64, and `Piece::char` writes a piece as its letter;
/// the list is named by `board_cells`.
#[verifier::external_body]
fn board_cells_raw(fen: &str) -> (r: Vec<(u8, char)>)
    ensures
        r@ == board_cells(fen@),
        forall|k: int| 0 <= k < r@.len() ==> (#[trigger] r@[k]).0 < 64,
{
    let pos: Option<shakmaty::Chess> = fen
        .parse::<shakmaty::fen::Fen>()
        .ok()
        .and_then(|f| f.into_position(shakmaty::CastlingMode::Standard).ok());
    match pos {
        Some(p) => p.board().clone().into_iter().map(|(s, pc)| (u8::from(s), pc.char())).collect(),
        None => Vec::new(),
    }
}

/// Rejection of a token that does not denote a legal move in the current
/// position. Local and recoverable: the position is left untouched and
/// nothing is recorded.
#[derive(Clone, Copy, Debug, PartialEq, Eq, Structural)]
pub struct IllegalMoveError;

/// A live chess position, always one reachable from the starting
/// position by the legal moves applied so far. The snapshot string is
/// the single source of truth; the side to move is tracked alongside it
/// and flips on every applied half-move, white first.
#[derive(Clone, Debug)]
pub struct Position {
    fen: String,
    white_to_move: bool,
}

impl Position {
    /// The canonical snapshot of this position.
    pub closed spec fn spec_fen(&self) -> Seq<char> {
        self.fen@
    }

    /// Whether it is white's turn in this position.
    pub closed spec fn spec_white_to_move(&self) -> bool {
        self.white_to_move
    }

    /// The standard starting position.
    pub fn initial() -> (p: Position)
        ensures
            p.spec_fen() == INITIAL_FEN@,
            p.spec_white_to_move(),
    {
        Position { fen: INITIAL_FEN.to_owned(), white_to_move: true }
    }

    /// The canonical snapshot of this position, as stored in game logs.
    pub fn fen(&self) -> (r: &String)
        ensures
            r@ == self.spec_fen(),
    {
        &self.fen
    }

    /// Whether it is white's turn.
    pub fn white_to_move(&self) -> (r: bool)
        ensures
            r == self.spec_white_to_move(),
    {
        self.white_to_move
    }

    /// Every legal move of this position, one row per move. Each row's
    /// token is guaranteed to apply successfully, so a front end that
    /// forwards an enumerated row never sees a rejection.
    pub fn legal_rows(&self) -> (rows: Vec<MoveRow>)
        ensures
            rows@.map_values(|row: MoveRow| row.san@) == legal_sans(self.spec_fen()),
            forall|k: int|
                0 <= k < rows@.len() ==> san_apply(self.spec_fen(), #[trigger] rows@[k].san@)
                    is Some,
            forall|k: int|
                0 <= k < rows@.len() ==> (#[trigger] rows@[k].to < 64 && (rows@[k].from
                    matches Some(f) ==> f < 64)),
    {
        legal_rows_raw(self.fen.as_str())
    }

    /// Applies the move denoted by `token`, if it is legal here: the
    /// position advances to the unique successor snapshot and the turn
    /// flips to the opposite side. An illegal or unreadable token is
    /// rejected with no change at all.
    pub fn play_token(&mut self, token: &str) -> (r: Result<(), IllegalMoveError>)
        ensures
            r is Ok <==> san_apply(old(self).spec_fen(), token@) is Some,
            r is Ok ==> (san_apply(old(self).spec_fen(), token@) matches Some(s)
                && final(self).spec_fen() == s),
            r is Ok ==> final(self).spec_white_to_move() == !old(self).spec_white_to_move(),
            r is Err ==> *final(self) == *old(self),
    {
        match san_play(self.fen.as_str(), token) {
            Some(next) => {
                self.fen = next;
                self.white_to_move = !self.white_to_move;
                Ok(())
            },
            None => Err(IllegalMoveError),
        }
    }

    /// What the engine reports of this position. The fifty-move rule and
    /// repetition are not reflected here; see [`Position::outcome`].
    pub fn status(&self) -> (r: EngineStatus)
        ensures
            r == engine_status(self.spec_fen()),
    {
        engine_status_of(self.fen.as_str())
    }

    /// The pieces on the board, as (square, letter) pairs, for
    /// rendering; [`crate::pieces::piece_from_char`] reads a letter
    /// back as a piece.
    pub fn board_pieces(&self) -> (r: Vec<(u8, char)>)
        ensures
            r@ == board_cells(self.spec_fen()),
            forall|k: int| 0 <= k < r@.len() ==> (#[trigger] r@[k]).0 < 64,
    {
        board_cells_raw(self.fen.as_str())
    }

    /// Applies the move denoted by `token` and returns the resulting
    /// position, leaving this one untouched; rejects an illegal token.
    pub fn apply(&self, token: &str) -> (r: Result<Position, IllegalMoveError>)
        ensures
            r is Ok <==> san_apply(self.spec_fen(), token@) is Some,
            r matches Ok(p) ==> (san_apply(self.spec_fen(), token@) matches Some(s) && p.spec_fen()
                == s && p.spec_white_to_move() == !self.spec_white_to_move()),
    {
        let mut next = Position { fen: self.fen.clone(), white_to_move: self.white_to_move };
        match next.play_token(token) {
            Ok(()) => Ok(next),
            Err(e) => Err(e),
        }
    }

    /// The terminal outcome of this position: what the engine reports,
    /// with the fifty-move rule layered on top — a position the engine
    /// still calls ongoing counts as drawn once its half-move clock
    /// reaches a hundred half-moves. Threefold repetition is not
    /// tracked: a repetition draw is never reported, a known
    /// simplification of the full draw rules.
    pub fn outcome(&self) -> (r: EngineStatus)
        ensures
            r == spec_outcome(self.spec_fen()),
    {
        let status = self.status();
        match status {
            EngineStatus::Ongoing => {
                if crate::fen::fifty_move_reached(self.fen.as_str()) {
                    EngineStatus::Draw
                } else {
                    EngineStatus::Ongoing
                }
            },
            other => other,
        }
    }
}

/// The outcome of the position a snapshot denotes: the engine's own
/// report, except that an ongoing position whose half-move clock has
/// reached the fifty-move threshold counts as drawn.
pub open spec fn spec_outcome(f: Seq<char>) -> EngineStatus {
    if engine_status(f) is Ongoing && spec_fifty_move(f) {
        EngineStatus::Draw
    } else {
        engine_status(f)
    }
}

} // verus!
