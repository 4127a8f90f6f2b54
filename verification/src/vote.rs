//! The piece-vote feature and its feed.
//!
//! A round of the game offers two distinct chessmen and records which
//! one the user preferred, with an optional reason. The pair on offer
//! is drawn at random; the submission guard refuses to build a record
//! until a user is known and a side has been picked. The feed pages
//! through stored votes a fixed page at a time.

use vstd::prelude::*;

use crate::pieces::{all_pieces, lemma_all_pieces_distinct, piece_index, Pieces};

verus! {

/// How many feed entries one page holds.
pub const PAGE_SIZE: i64 = 20;

/// One vote as the feed shows it, joined with the voter's username.
/// The creation time is carried as a unix timestamp in seconds.
#[derive(Clone, Debug)]
pub struct Vote {
    pub id: String,
    pub username: String,
    pub first_piece: Pieces,
    pub second_piece: Pieces,
    pub voted_for_first: bool,
    pub reason: Option<String>,
    pub created_at: i64,
}

/// A vote ready to be stored: every field the record needs, present
/// and validated.
#[derive(Clone, Debug)]
pub struct VoteSubmission {
    pub user_id: String,
    pub first_piece: Pieces,
    pub second_piece: Pieces,
    pub voted_for_first: bool,
    pub reason: Option<String>,
}

/// Relies on `rand::random_range`: a value uniformly drawn from
/// `0..n`, which panics on an empty range, so `n` must be positive.
/// Only the bound is promised of the random result.
#[verifier::external_body]
fn random_below(n: usize) -> (r: usize)
    requires
        1 <= n,
    ensures
        r < n,
{
    rand::random_range(0..n)
}

/// Two distinct chessmen to put up for a vote, drawn at random: the
/// first uniformly from all twelve, the second uniformly from the
/// remaining eleven.
pub fn get_vote_candidates() -> (r: (Pieces, Pieces))
    ensures
        all_pieces().contains(r.0),
        all_pieces().contains(r.1),
        r.0 != r.1,
{
    let pieces = Pieces::all();
    let i = random_below(12);
    let draw = random_below(11);
    let j = if draw >= i {
        draw + 1
    } else {
        draw
    };
    let first = pieces[i];
    let second = pieces[j];
    proof {
        lemma_all_pieces_distinct();
        assert(piece_index(first) == i as int && piece_index(second) == j as int);
        assert(all_pieces().contains(first)) by {
            assert(all_pieces()[i as int] == first);
        }
        assert(all_pieces().contains(second)) by {
            assert(all_pieces()[j as int] == second);
        }
    }
    (first, second)
}

/// The submission guard: a vote can be stored only once a user is
/// known and one of the two pieces has been picked. An empty reason is
/// stored as no reason at all.
pub fn prepare_vote(
    user_id: Option<String>,
    first_piece: Pieces,
    second_piece: Pieces,
    selected_first: Option<bool>,
    reason: String,
) -> (r: Option<VoteSubmission>)
    ensures
        r is Some <==> user_id is Some && selected_first is Some,
        r matches Some(v) ==> {
            &&& user_id matches Some(u) && v.user_id == u
            &&& v.first_piece == first_piece
            &&& v.second_piece == second_piece
            &&& selected_first matches Some(s) && v.voted_for_first == s
            &&& reason@.len() == 0 ==> v.reason is None
            &&& reason@.len() > 0 ==> (v.reason matches Some(t) && t@ == reason@)
        },
{
    let user_id = match user_id {
        Some(u) => u,
        None => {
            return None;
        },
    };
    let voted_for_first = match selected_first {
        Some(s) => s,
        None => {
            return None;
        },
    };
    let reason = if reason.as_str().is_empty() {
        None
    } else {
        Some(reason)
    };
    Some(VoteSubmission { user_id, first_piece, second_piece, voted_for_first, reason })
}

/// One more page of feed entries.
pub fn grow_feed_length(length: i64) -> (r: i64)
    requires
        length <= i64::MAX - PAGE_SIZE,
    ensures
        r == length + PAGE_SIZE,
{
    length + PAGE_SIZE
}

/// The query window for a feed range: how many entries to fetch and
/// how many to skip.
pub fn feed_window(start: i64, end: i64) -> (r: (i64, i64))
    requires
        0 <= start <= end,
    ensures
        r.0 == end - start,
        r.1 == start,
{
    (end - start, start)
}

} // verus!
