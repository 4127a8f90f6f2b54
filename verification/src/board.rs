//! The board front end's decision logic.
//!
//! A front end renders the position, lets the user select a square, and
//! shows an indicator on every square the selected piece can move to.
//! Everything it decides — how a click changes the selection, which
//! moves get an indicator, and how a promotion is offered in two steps
//! (destination first, then role) — is computed here over the plain
//! move rows the engine enumerates. The chosen move is always one of
//! the enumerated rows, token and all, so a promotion is never
//! hand-built: the role choice merely picks which enumerated row to
//! play.
//!
//! Each selection function returns indices into the given row list, in
//! enumeration order: exactly the rows to act on, nothing else.

use vstd::prelude::*;

use crate::engine::{EngineStatus, MoveRow};

verus! {

/// How a click on the square of a piece changes the selection: clicking
/// the selected square again clears the selection, any other square
/// becomes the new selection.
pub fn select_square(selected: Option<u8>, clicked: u8) -> (r: Option<u8>)
    ensures
        r == (if selected == Some(clicked) {
            Option::<u8>::None
        } else {
            Some(clicked)
        }),
{
    match selected {
        Some(square) if square == clicked => None,
        _ => Some(clicked),
    }
}

/// Whether a row is an ordinary (non-promotion) move of the piece on
/// `selected`.
pub open spec fn is_plain_move_from(row: MoveRow, selected: u8) -> bool {
    row.from == Some(selected) && row.promotion is None
}

/// Whether a row is a promotion of the pawn on `selected` to the role
/// written `role`.
pub open spec fn is_promotion_from(row: MoveRow, selected: u8, role: char) -> bool {
    row.from == Some(selected) && row.promotion == Some(role)
}

/// The rows that get a plain move indicator for the selected square:
/// exactly the non-promotion moves of the piece standing there, as
/// indices into `rows` in enumeration order. The front end draws each
/// row's indicator on its target square and plays the row's token on a
/// click.
pub fn move_indicators(rows: &Vec<MoveRow>, selected: u8) -> (r: Vec<usize>)
    ensures
        forall|k: int|
            0 <= k < r@.len() ==> #[trigger] r@[k] < rows@.len() && is_plain_move_from(
                rows@[r@[k] as int],
                selected,
            ),
        forall|k1: int, k2: int| 0 <= k1 < k2 < r@.len() ==> r@[k1] < r@[k2],
        forall|j: usize|
            j < rows@.len() && is_plain_move_from(#[trigger] rows@[j as int], selected)
                ==> r@.contains(j),
{
    broadcast use vstd::seq_lib::lemma_seq_contains_after_push;

    let mut r: Vec<usize> = Vec::new();
    let mut i: usize = 0;
    while i < rows.len()
        invariant
            0 <= i <= rows@.len(),
            forall|k: int|
                0 <= k < r@.len() ==> #[trigger] r@[k] < i && is_plain_move_from(
                    rows@[r@[k] as int],
                    selected,
                ),
            forall|k1: int, k2: int| 0 <= k1 < k2 < r@.len() ==> r@[k1] < r@[k2],
            forall|j: usize|
                j < i && is_plain_move_from(#[trigger] rows@[j as int], selected) ==> r@.contains(
                    j,
                ),
        decreases rows@.len() - i,
    {
        let row = &rows[i];
        let keep = match (row.from, row.promotion) {
            (Some(from), None) => from == selected,
            _ => false,
        };
        let ghost r0 = r@;
        if keep {
            r.push(i);
        }
        proof {
            assert(keep == is_plain_move_from(rows@[i as int], selected));
            if keep {
                assert(r@ == r0.push(i));
                assert(r@.contains(i)) by {
                    assert(r@[r@.len() - 1] == i);
                }
            }
            assert forall|j: usize|
                j < i + 1 && is_plain_move_from(#[trigger] rows@[j as int], selected) implies r@
                .contains(j) by {
                if j < i {
                    assert(r0.contains(j));
                    let w = choose|w: int| 0 <= w < r0.len() && r0[w] == j;
                    assert(r@[w] == j);
                }
            }
        }
        i = i + 1;
    }
    r
}

/// The destinations offered in the first step of a promotion from the
/// selected square: one representative row per reachable last-rank
/// square. Since every promotion destination is enumerated once per
/// role, the rows promoting to a knight serve as the representatives,
/// which de-duplicates the destinations.
pub fn promotion_indicators(rows: &Vec<MoveRow>, selected: u8) -> (r: Vec<usize>)
    ensures
        forall|k: int|
            0 <= k < r@.len() ==> #[trigger] r@[k] < rows@.len() && is_promotion_from(
                rows@[r@[k] as int],
                selected,
                'n',
            ),
        forall|k1: int, k2: int| 0 <= k1 < k2 < r@.len() ==> r@[k1] < r@[k2],
        forall|j: usize|
            j < rows@.len() && is_promotion_from(#[trigger] rows@[j as int], selected, 'n')
                ==> r@.contains(j),
{
    broadcast use vstd::seq_lib::lemma_seq_contains_after_push;

    let mut r: Vec<usize> = Vec::new();
    let mut i: usize = 0;
    while i < rows.len()
        invariant
            0 <= i <= rows@.len(),
            forall|k: int|
                0 <= k < r@.len() ==> #[trigger] r@[k] < i && is_promotion_from(
                    rows@[r@[k] as int],
                    selected,
                    'n',
                ),
            forall|k1: int, k2: int| 0 <= k1 < k2 < r@.len() ==> r@[k1] < r@[k2],
            forall|j: usize|
                j < i && is_promotion_from(#[trigger] rows@[j as int], selected, 'n')
                    ==> r@.contains(j),
        decreases rows@.len() - i,
    {
        let row = &rows[i];
        let keep = match (row.from, row.promotion) {
            (Some(from), Some(role)) => from == selected && role == 'n',
            _ => false,
        };
        let ghost r0 = r@;
        if keep {
            r.push(i);
        }
        proof {
            assert(keep == is_promotion_from(rows@[i as int], selected, 'n'));
            if keep {
                assert(r@ == r0.push(i));
                assert(r@.contains(i)) by {
                    assert(r@[r@.len() - 1] == i);
                }
            }
            assert forall|j: usize|
                j < i + 1 && is_promotion_from(#[trigger] rows@[j as int], selected, 'n') implies r@
                .contains(j) by {
                if j < i {
                    assert(r0.contains(j));
                    let w = choose|w: int| 0 <= w < r0.len() && r0[w] == j;
                    assert(r@[w] == j);
                }
            }
        }
        i = i + 1;
    }
    r
}

/// Whether a row promotes the pawn on `selected` to the destination
/// `to`, whatever the role.
pub open spec fn is_promotion_to(row: MoveRow, selected: u8, to: u8) -> bool {
    row.from == Some(selected) && row.to == to && row.promotion is Some
}

/// The second step of a promotion: the roles that are legal for the
/// chosen destination, as the promotion letters of exactly the rows
/// promoting there, in enumeration order.
pub fn promotion_roles(rows: &Vec<MoveRow>, selected: u8, to: u8) -> (r: Vec<char>)
    ensures
        forall|c: char|
            #[trigger] r@.contains(c) <==> exists|j: int|
                0 <= j < rows@.len() && is_promotion_to(#[trigger] rows@[j], selected, to)
                    && rows@[j].promotion == Some(c),
{
    broadcast use vstd::seq_lib::lemma_seq_contains_after_push;

    let mut r: Vec<char> = Vec::new();
    let mut i: usize = 0;
    while i < rows.len()
        invariant
            0 <= i <= rows@.len(),
            forall|c: char|
                #[trigger] r@.contains(c) <==> exists|j: int|
                    0 <= j < i && is_promotion_to(#[trigger] rows@[j], selected, to)
                        && rows@[j].promotion == Some(c),
        decreases rows@.len() - i,
    {
        let row = &rows[i];
        let ghost r0 = r@;
        let keep = match (row.from, row.promotion) {
            (Some(from), Some(_)) => from == selected && row.to == to,
            _ => false,
        };
        if keep {
            match row.promotion {
                Some(role) => {
                    r.push(role);
                },
                None => {},
            }
        }
        proof {
            assert(keep == is_promotion_to(rows@[i as int], selected, to));
            if keep {
                let role = rows@[i as int].promotion->Some_0;
                assert(r@ == r0.push(role));
                assert(r@.contains(role)) by {
                    assert(r@[r@.len() - 1] == role);
                }
            }
            assert forall|c: char| #[trigger] r@.contains(c) implies exists|j: int|
                0 <= j < i + 1 && is_promotion_to(#[trigger] rows@[j], selected, to)
                    && rows@[j].promotion == Some(c) by {
                let w = choose|w: int| 0 <= w < r@.len() && r@[w] == c;
                if w < r0.len() {
                    assert(r0.contains(c)) by {
                        assert(r0[w] == c);
                    }
                    let j = choose|j: int|
                        0 <= j < i && is_promotion_to(#[trigger] rows@[j], selected, to)
                            && rows@[j].promotion == Some(c);
                    assert(0 <= j < i + 1 && is_promotion_to(rows@[j], selected, to)
                        && rows@[j].promotion == Some(c));
                } else {
                    assert(keep && c == rows@[i as int].promotion->Some_0);
                    assert(is_promotion_to(rows@[i as int], selected, to)
                        && rows@[i as int].promotion == Some(c));
                }
            }
            assert forall|c: char|
                (exists|j: int|
                    0 <= j < i + 1 && is_promotion_to(#[trigger] rows@[j], selected, to)
                        && rows@[j].promotion == Some(c)) implies r@.contains(c) by {
                let j = choose|j: int|
                    0 <= j < i + 1 && is_promotion_to(#[trigger] rows@[j], selected, to)
                        && rows@[j].promotion == Some(c);
                if j < i {
                    assert(r0.contains(c));
                    let w = choose|w: int| 0 <= w < r0.len() && r0[w] == c;
                    assert(r@[w] == c);
                } else {
                    assert(keep);
                    assert(r@[r@.len() - 1] == c);
                }
            }
        }
        i = i + 1;
    }
    r
}

/// The third step of a promotion: the enumerated row to play for the
/// chosen destination and role, if there is one. The returned index
/// always denotes a row with exactly the requested origin, destination
/// and promotion, so the played move is an enumerated legal move with
/// only the role selection applied.
pub fn choose_promotion(rows: &Vec<MoveRow>, selected: u8, to: u8, role: char) -> (r: Option<
    usize,
>)
    ensures
        r matches Some(idx) ==> idx < rows@.len() && is_promotion_from(
            rows@[idx as int],
            selected,
            role,
        ) && rows@[idx as int].to == to,
        r is None ==> forall|j: int|
            0 <= j < rows@.len() ==> !(is_promotion_from(#[trigger] rows@[j], selected, role)
                && rows@[j].to == to),
{
    let mut i: usize = 0;
    while i < rows.len()
        invariant
            0 <= i <= rows@.len(),
            forall|j: int|
                0 <= j < i ==> !(is_promotion_from(#[trigger] rows@[j], selected, role)
                    && rows@[j].to == to),
        decreases rows@.len() - i,
    {
        let row = &rows[i];
        match (row.from, row.promotion) {
            (Some(from), Some(promo)) => {
                if from == selected && row.to == to && promo == role {
                    return Some(i);
                }
            },
            _ => {},
        }
        i = i + 1;
    }
    None
}

/// The file of a square, 0 for the a-file through 7 for the h-file.
pub fn file_of(square: u8) -> (r: u8)
    requires
        square < 64,
    ensures
        r == square % 8,
{
    square % 8
}

/// The rank of a square, 0 for the first rank through 7 for the eighth.
pub fn rank_of(square: u8) -> (r: u8)
    requires
        square < 64,
    ensures
        r == square / 8,
{
    square / 8
}

/// The headline a game-over dialog shows for a finished game, and the
/// empty string while the game is ongoing. A stalemate is announced
/// with the same wording as any other draw.
pub fn status_text(status: EngineStatus) -> (r: &'static str)
    ensures
        status == EngineStatus::WhiteWins ==> r@ == "White Wins"@,
        status == EngineStatus::BlackWins ==> r@ == "Black Wins"@,
        status == EngineStatus::Stalemate ==> r@ == "Draw"@,
        status == EngineStatus::Draw ==> r@ == "Draw"@,
        status == EngineStatus::Ongoing ==> r@ == ""@,
{
    match status {
        EngineStatus::WhiteWins => "White Wins",
        EngineStatus::BlackWins => "Black Wins",
        EngineStatus::Stalemate => "Draw",
        EngineStatus::Draw => "Draw",
        EngineStatus::Ongoing => "",
    }
}

} // verus!
