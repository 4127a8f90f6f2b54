//! Piece colors, roles, and the twelve concrete chessmen.
//!
//! [`Piece`] is the engine-facing pair of color and role; [`Pieces`] is
//! the flat twelve-variant form the vote feature and the record store
//! work with. The two convert losslessly in both directions, and
//! [`piece_to_img`] is the fixed lookup from a piece to the path of its
//! image asset.

use vstd::prelude::*;

verus! {

#[derive(Clone, Copy, Debug, PartialEq, Eq, Structural)]
pub enum Color {
    White,
    Black,
}

impl Color {
    /// The side that moves after this one.
    pub open spec fn spec_other(self) -> Color {
        match self {
            Color::White => Color::Black,
            Color::Black => Color::White,
        }
    }

    pub fn other(self) -> (r: Color)
        ensures
            r == self.spec_other(),
    {
        match self {
            Color::White => Color::Black,
            Color::Black => Color::White,
        }
    }

    pub fn is_white(self) -> (r: bool)
        ensures
            r == (self == Color::White),
    {
        match self {
            Color::White => true,
            Color::Black => false,
        }
    }
}

#[derive(Clone, Copy, Debug, PartialEq, Eq, Structural)]
pub enum Role {
    Pawn,
    Knight,
    Bishop,
    Rook,
    Queen,
    King,
}

impl Role {
    /// The lower-case letter of the role, as used in promotion tokens
    /// and snapshot strings.
    pub open spec fn spec_char(self) -> char {
        match self {
            Role::Pawn => 'p',
            Role::Knight => 'n',
            Role::Bishop => 'b',
            Role::Rook => 'r',
            Role::Queen => 'q',
            Role::King => 'k',
        }
    }

    pub fn to_char(self) -> (r: char)
        ensures
            r == self.spec_char(),
    {
        match self {
            Role::Pawn => 'p',
            Role::Knight => 'n',
            Role::Bishop => 'b',
            Role::Rook => 'r',
            Role::Queen => 'q',
            Role::King => 'k',
        }
    }
}

/// A chessman: a color and a role.
#[derive(Clone, Copy, Debug, PartialEq, Eq, Structural)]
pub struct Piece {
    pub color: Color,
    pub role: Role,
}

/// The twelve concrete chessmen, in the order the record store names
/// them.
#[derive(Clone, Copy, Debug, PartialEq, Eq, PartialOrd, Structural)]
pub enum Pieces {
    BB,
    BK,
    BN,
    BP,
    BQ,
    BR,
    WB,
    WK,
    WN,
    WP,
    WQ,
    WR,
}

pub open spec fn spec_pieces_of(piece: Piece) -> Pieces {
    match (piece.color, piece.role) {
        (Color::Black, Role::Bishop) => Pieces::BB,
        (Color::Black, Role::King) => Pieces::BK,
        (Color::Black, Role::Knight) => Pieces::BN,
        (Color::Black, Role::Pawn) => Pieces::BP,
        (Color::Black, Role::Queen) => Pieces::BQ,
        (Color::Black, Role::Rook) => Pieces::BR,
        (Color::White, Role::Bishop) => Pieces::WB,
        (Color::White, Role::King) => Pieces::WK,
        (Color::White, Role::Knight) => Pieces::WN,
        (Color::White, Role::Pawn) => Pieces::WP,
        (Color::White, Role::Queen) => Pieces::WQ,
        (Color::White, Role::Rook) => Pieces::WR,
    }
}

pub open spec fn spec_piece_of(pieces: Pieces) -> Piece {
    match pieces {
        Pieces::BB => Piece { color: Color::Black, role: Role::Bishop },
        Pieces::BK => Piece { color: Color::Black, role: Role::King },
        Pieces::BN => Piece { color: Color::Black, role: Role::Knight },
        Pieces::BP => Piece { color: Color::Black, role: Role::Pawn },
        Pieces::BQ => Piece { color: Color::Black, role: Role::Queen },
        Pieces::BR => Piece { color: Color::Black, role: Role::Rook },
        Pieces::WB => Piece { color: Color::White, role: Role::Bishop },
        Pieces::WK => Piece { color: Color::White, role: Role::King },
        Pieces::WN => Piece { color: Color::White, role: Role::Knight },
        Pieces::WP => Piece { color: Color::White, role: Role::Pawn },
        Pieces::WQ => Piece { color: Color::White, role: Role::Queen },
        Pieces::WR => Piece { color: Color::White, role: Role::Rook },
    }
}

impl From<Piece> for Pieces {
    fn from(piece: Piece) -> (r: Pieces) {
        match (piece.color, piece.role) {
            (Color::Black, Role::Bishop) => Pieces::BB,
            (Color::Black, Role::King) => Pieces::BK,
            (Color::Black, Role::Knight) => Pieces::BN,
            (Color::Black, Role::Pawn) => Pieces::BP,
            (Color::Black, Role::Queen) => Pieces::BQ,
            (Color::Black, Role::Rook) => Pieces::BR,
            (Color::White, Role::Bishop) => Pieces::WB,
            (Color::White, Role::King) => Pieces::WK,
            (Color::White, Role::Knight) => Pieces::WN,
            (Color::White, Role::Pawn) => Pieces::WP,
            (Color::White, Role::Queen) => Pieces::WQ,
            (Color::White, Role::Rook) => Pieces::WR,
        }
    }
}

impl vstd::std_specs::convert::FromSpecImpl<Piece> for Pieces {
    open spec fn obeys_from_spec() -> bool {
        true
    }

    open spec fn from_spec(piece: Piece) -> Pieces {
        spec_pieces_of(piece)
    }
}

impl From<Pieces> for Piece {
    fn from(pieces: Pieces) -> (r: Piece) {
        match pieces {
            Pieces::BB => Piece { color: Color::Black, role: Role::Bishop },
            Pieces::BK => Piece { color: Color::Black, role: Role::King },
            Pieces::BN => Piece { color: Color::Black, role: Role::Knight },
            Pieces::BP => Piece { color: Color::Black, role: Role::Pawn },
            Pieces::BQ => Piece { color: Color::Black, role: Role::Queen },
            Pieces::BR => Piece { color: Color::Black, role: Role::Rook },
            Pieces::WB => Piece { color: Color::White, role: Role::Bishop },
            Pieces::WK => Piece { color: Color::White, role: Role::King },
            Pieces::WN => Piece { color: Color::White, role: Role::Knight },
            Pieces::WP => Piece { color: Color::White, role: Role::Pawn },
            Pieces::WQ => Piece { color: Color::White, role: Role::Queen },
            Pieces::WR => Piece { color: Color::White, role: Role::Rook },
        }
    }
}

impl vstd::std_specs::convert::FromSpecImpl<Pieces> for Piece {
    open spec fn obeys_from_spec() -> bool {
        true
    }

    open spec fn from_spec(pieces: Pieces) -> Piece {
        spec_piece_of(pieces)
    }
}

/// The twelve chessmen in declaration order.
pub open spec fn all_pieces() -> Seq<Pieces> {
    seq![
        Pieces::BB,
        Pieces::BK,
        Pieces::BN,
        Pieces::BP,
        Pieces::BQ,
        Pieces::BR,
        Pieces::WB,
        Pieces::WK,
        Pieces::WN,
        Pieces::WP,
        Pieces::WQ,
        Pieces::WR,
    ]
}

/// The position of a chessman in the declaration order.
pub open spec fn piece_index(p: Pieces) -> int {
    match p {
        Pieces::BB => 0,
        Pieces::BK => 1,
        Pieces::BN => 2,
        Pieces::BP => 3,
        Pieces::BQ => 4,
        Pieces::BR => 5,
        Pieces::WB => 6,
        Pieces::WK => 7,
        Pieces::WN => 8,
        Pieces::WP => 9,
        Pieces::WQ => 10,
        Pieces::WR => 11,
    }
}

/// Indexing the roster is injective: distinct indices name distinct
/// chessmen.
pub proof fn lemma_all_pieces_distinct()
    ensures
        forall|i: int| 0 <= i < 12 ==> piece_index(#[trigger] all_pieces()[i]) == i,
{
    assert(piece_index(all_pieces()[0]) == 0);
    assert(piece_index(all_pieces()[1]) == 1);
    assert(piece_index(all_pieces()[2]) == 2);
    assert(piece_index(all_pieces()[3]) == 3);
    assert(piece_index(all_pieces()[4]) == 4);
    assert(piece_index(all_pieces()[5]) == 5);
    assert(piece_index(all_pieces()[6]) == 6);
    assert(piece_index(all_pieces()[7]) == 7);
    assert(piece_index(all_pieces()[8]) == 8);
    assert(piece_index(all_pieces()[9]) == 9);
    assert(piece_index(all_pieces()[10]) == 10);
    assert(piece_index(all_pieces()[11]) == 11);
}

impl Pieces {
    /// Every chessman once, in declaration order.
    pub fn all() -> (r: Vec<Pieces>)
        ensures
            r@ == all_pieces(),
    {
        let mut r: Vec<Pieces> = Vec::new();
        r.push(Pieces::BB);
        r.push(Pieces::BK);
        r.push(Pieces::BN);
        r.push(Pieces::BP);
        r.push(Pieces::BQ);
        r.push(Pieces::BR);
        r.push(Pieces::WB);
        r.push(Pieces::WK);
        r.push(Pieces::WN);
        r.push(Pieces::WP);
        r.push(Pieces::WQ);
        r.push(Pieces::WR);
        proof {
            assert(r@ =~= all_pieces());
        }
        r
    }
}

/// The two conversions invert each other, so no chessman is lost or
/// confused on a round trip through either form.
pub proof fn lemma_pieces_round_trip()
    ensures
        forall|p: Piece| spec_piece_of(#[trigger] spec_pieces_of(p)) == p,
        forall|p: Pieces| spec_pieces_of(#[trigger] spec_piece_of(p)) == p,
{
}

/// The letter a piece is written as: its role's English initial,
/// upper case for white.
pub open spec fn spec_piece_char(piece: Piece) -> char {
    match (piece.color, piece.role) {
        (Color::White, Role::Pawn) => 'P',
        (Color::White, Role::Knight) => 'N',
        (Color::White, Role::Bishop) => 'B',
        (Color::White, Role::Rook) => 'R',
        (Color::White, Role::Queen) => 'Q',
        (Color::White, Role::King) => 'K',
        (Color::Black, Role::Pawn) => 'p',
        (Color::Black, Role::Knight) => 'n',
        (Color::Black, Role::Bishop) => 'b',
        (Color::Black, Role::Rook) => 'r',
        (Color::Black, Role::Queen) => 'q',
        (Color::Black, Role::King) => 'k',
    }
}

/// The piece a letter denotes, if any.
pub open spec fn spec_piece_from_char(c: char) -> Option<Piece> {
    if c == 'P' {
        Some(Piece { color: Color::White, role: Role::Pawn })
    } else if c == 'N' {
        Some(Piece { color: Color::White, role: Role::Knight })
    } else if c == 'B' {
        Some(Piece { color: Color::White, role: Role::Bishop })
    } else if c == 'R' {
        Some(Piece { color: Color::White, role: Role::Rook })
    } else if c == 'Q' {
        Some(Piece { color: Color::White, role: Role::Queen })
    } else if c == 'K' {
        Some(Piece { color: Color::White, role: Role::King })
    } else if c == 'p' {
        Some(Piece { color: Color::Black, role: Role::Pawn })
    } else if c == 'n' {
        Some(Piece { color: Color::Black, role: Role::Knight })
    } else if c == 'b' {
        Some(Piece { color: Color::Black, role: Role::Bishop })
    } else if c == 'r' {
        Some(Piece { color: Color::Black, role: Role::Rook })
    } else if c == 'q' {
        Some(Piece { color: Color::Black, role: Role::Queen })
    } else if c == 'k' {
        Some(Piece { color: Color::Black, role: Role::King })
    } else {
        None
    }
}

/// Writes a piece as its letter.
pub fn piece_char(piece: Piece) -> (r: char)
    ensures
        r == spec_piece_char(piece),
{
    match (piece.color, piece.role) {
        (Color::White, Role::Pawn) => 'P',
        (Color::White, Role::Knight) => 'N',
        (Color::White, Role::Bishop) => 'B',
        (Color::White, Role::Rook) => 'R',
        (Color::White, Role::Queen) => 'Q',
        (Color::White, Role::King) => 'K',
        (Color::Black, Role::Pawn) => 'p',
        (Color::Black, Role::Knight) => 'n',
        (Color::Black, Role::Bishop) => 'b',
        (Color::Black, Role::Rook) => 'r',
        (Color::Black, Role::Queen) => 'q',
        (Color::Black, Role::King) => 'k',
    }
}

/// Reads a letter back as a piece, as the board listing writes them.
pub fn piece_from_char(c: char) -> (r: Option<Piece>)
    ensures
        r == spec_piece_from_char(c),
{
    match c {
        'P' => Some(Piece { color: Color::White, role: Role::Pawn }),
        'N' => Some(Piece { color: Color::White, role: Role::Knight }),
        'B' => Some(Piece { color: Color::White, role: Role::Bishop }),
        'R' => Some(Piece { color: Color::White, role: Role::Rook }),
        'Q' => Some(Piece { color: Color::White, role: Role::Queen }),
        'K' => Some(Piece { color: Color::White, role: Role::King }),
        'p' => Some(Piece { color: Color::Black, role: Role::Pawn }),
        'n' => Some(Piece { color: Color::Black, role: Role::Knight }),
        'b' => Some(Piece { color: Color::Black, role: Role::Bishop }),
        'r' => Some(Piece { color: Color::Black, role: Role::Rook }),
        'q' => Some(Piece { color: Color::Black, role: Role::Queen }),
        'k' => Some(Piece { color: Color::Black, role: Role::King }),
        _ => None,
    }
}

/// The letter of a piece always reads back as that piece.
pub proof fn lemma_piece_char_round_trip()
    ensures
        forall|p: Piece| spec_piece_from_char(#[trigger] spec_piece_char(p)) == Some(p),
{
}

/// The fixed image asset for a piece.
pub open spec fn spec_piece_img(piece: Piece) -> Seq<char> {
    match (piece.color, piece.role) {
        (Color::Black, Role::Pawn) => "/pieces/bp.png"@,
        (Color::Black, Role::Knight) => "/pieces/bn.png"@,
        (Color::Black, Role::Bishop) => "/pieces/bb.png"@,
        (Color::Black, Role::Rook) => "/pieces/br.png"@,
        (Color::Black, Role::Queen) => "/pieces/bq.png"@,
        (Color::Black, Role::King) => "/pieces/bk.png"@,
        (Color::White, Role::Pawn) => "/pieces/wp.png"@,
        (Color::White, Role::Knight) => "/pieces/wn.png"@,
        (Color::White, Role::Bishop) => "/pieces/wb.png"@,
        (Color::White, Role::Rook) => "/pieces/wr.png"@,
        (Color::White, Role::Queen) => "/pieces/wq.png"@,
        (Color::White, Role::King) => "/pieces/wk.png"@,
    }
}

/// The path of the image that renders a piece.
pub fn piece_to_img(piece: &Piece) -> (r: &'static str)
    ensures
        r@ == spec_piece_img(*piece),
{
    match (piece.color, piece.role) {
        (Color::Black, Role::Pawn) => "/pieces/bp.png",
        (Color::Black, Role::Knight) => "/pieces/bn.png",
        (Color::Black, Role::Bishop) => "/pieces/bb.png",
        (Color::Black, Role::Rook) => "/pieces/br.png",
        (Color::Black, Role::Queen) => "/pieces/bq.png",
        (Color::Black, Role::King) => "/pieces/bk.png",
        (Color::White, Role::Pawn) => "/pieces/wp.png",
        (Color::White, Role::Knight) => "/pieces/wn.png",
        (Color::White, Role::Bishop) => "/pieces/wb.png",
        (Color::White, Role::Rook) => "/pieces/wr.png",
        (Color::White, Role::Queen) => "/pieces/wq.png",
        (Color::White, Role::King) => "/pieces/wk.png",
    }
}

} // verus!
