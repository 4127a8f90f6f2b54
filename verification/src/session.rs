//! The move recorder and the replay validator.
//!
//! A live game owns a [`GameSession`]: the current [`Position`] plus an
//! append-only log with one notation pair per half-move — the move's
//! token and the canonical snapshot of the position after the move. The
//! recorder's invariant is the round-trip property itself: replaying the
//! logged tokens from the starting position reproduces every logged
//! snapshot.
//!
//! The replay validator is the trustless counterpart: given nothing but
//! a submitted log, it replays the tokens from the fixed starting
//! position and compares each resulting snapshot byte-for-byte with the
//! logged one. It shares no state with whatever produced the log, so it
//! is the sole gate against forged or corrupted game histories.

use vstd::prelude::*;

use crate::engine::{san_apply, IllegalMoveError, Position, INITIAL_FEN};
use crate::error::Error;

verus! {

/// One recorded half-move: the notation token of the move and the
/// canonical snapshot of the position the move produced.
#[derive(Clone, Debug)]
pub struct LogEntry {
    pub token: String,
    pub snapshot: String,
}

impl LogEntry {
    /// Exact comparison, token and snapshot both.
    pub fn entry_equals(&self, other: &LogEntry) -> (r: bool)
        ensures
            r == (self.token@ == other.token@ && self.snapshot@ == other.snapshot@),
    {
        self.token == other.token && self.snapshot == other.snapshot
    }
}

/// Whether replaying `entries` from the position denoted by `fen`
/// succeeds: every token denotes a legal move in the position reached so
/// far, and every resulting snapshot is exactly the logged one.
pub open spec fn replays_from(fen: Seq<char>, entries: Seq<LogEntry>) -> bool
    decreases entries.len(),
{
    if entries.len() == 0 {
        true
    } else {
        match san_apply(fen, entries[0].token@) {
            Some(next) => next == entries[0].snapshot@ && replays_from(
                next,
                entries.skip(1),
            ),
            None => false,
        }
    }
}

/// Whether a submitted log replays from the standard starting position.
pub open spec fn log_replays(entries: Seq<LogEntry>) -> bool {
    replays_from(INITIAL_FEN@, entries)
}

/// The snapshot of the position a log ends in: the last logged snapshot,
/// or the starting position for an empty log.
pub open spec fn log_fen(entries: Seq<LogEntry>) -> Seq<char> {
    if entries.len() == 0 {
        INITIAL_FEN@
    } else {
        entries.last().snapshot@
    }
}

/// Appending a half-move that applies cleanly at the log's end keeps the
/// log replayable.
proof fn lemma_replays_push(fen: Seq<char>, entries: Seq<LogEntry>, e: LogEntry)
    requires
        replays_from(fen, entries),
        san_apply(
            if entries.len() == 0 {
                fen
            } else {
                entries.last().snapshot@
            },
            e.token@,
        ) == Some(e.snapshot@),
    ensures
        replays_from(fen, entries.push(e)),
    decreases entries.len(),
{
    let pushed = entries.push(e);
    if entries.len() == 0 {
        assert(pushed[0] == e);
        assert(pushed.skip(1) =~= Seq::<LogEntry>::empty());
        assert(san_apply(fen, pushed[0].token@) == Some(e.snapshot@));
        assert(replays_from(e.snapshot@, pushed.skip(1)));
    } else {
        assert(san_apply(fen, entries[0].token@) is Some);
        let next = san_apply(fen, entries[0].token@)->Some_0;
        assert(replays_from(next, entries.skip(1)));
        assert(pushed.skip(1) =~= entries.skip(1).push(e));
        if entries.len() > 1 {
            assert(entries.skip(1).last() == entries.last());
        }
        lemma_replays_push(next, entries.skip(1), e);
        assert(replays_from(next, pushed.skip(1)));
        assert(pushed[0] == entries[0]);
        assert(san_apply(fen, pushed[0].token@) == Some(next) && next == pushed[0].snapshot@);
    }
}

/// A live game: the current position and the log recorded so far, one
/// entry per half-move. The invariant carried by every session is the
/// round-trip property: the log replays from the starting position, its
/// final snapshot is the current position, and the side to move
/// alternates with the number of recorded half-moves, white first.
#[derive(Clone, Debug)]
pub struct GameSession {
    pos: Position,
    log: Vec<LogEntry>,
}

impl GameSession {
    pub closed spec fn wf(&self) -> bool {
        &&& log_replays(self.log@)
        &&& self.pos.spec_fen() == log_fen(self.log@)
        &&& self.pos.spec_white_to_move() == (self.log@.len() % 2 == 0)
    }

    /// The log recorded so far.
    pub closed spec fn spec_log(&self) -> Seq<LogEntry> {
        self.log@
    }

    /// A fresh session at the standard starting position with an empty
    /// log.
    pub fn start() -> (s: GameSession)
        ensures
            s.wf(),
            s.spec_log() == Seq::<LogEntry>::empty(),
    {
        let s = GameSession { pos: Position::initial(), log: Vec::new() };
        proof {
            assert(s.log@ =~= Seq::<LogEntry>::empty());
        }
        s
    }

    /// The live position, for rendering and for enumerating legal moves.
    pub fn position(&self) -> (p: &Position)
        requires
            self.wf(),
        ensures
            p.spec_fen() == log_fen(self.spec_log()),
            p.spec_white_to_move() == (self.spec_log().len() % 2 == 0),
    {
        &self.pos
    }

    /// The recorded log, for display and for submission.
    pub fn log(&self) -> (r: &Vec<LogEntry>)
        ensures
            r@ == self.spec_log(),
    {
        &self.log
    }

    /// Ends the session and hands over the recorded log.
    pub fn into_log(self) -> (r: Vec<LogEntry>)
        ensures
            r@ == self.spec_log(),
    {
        self.log
    }

    /// The number of half-moves recorded so far.
    pub fn len(&self) -> (n: usize)
        ensures
            n == self.spec_log().len(),
    {
        self.log.len()
    }

    /// Plays the move denoted by `token` and records its notation pair.
    /// The pair appended on success is exactly the one replay produces:
    /// the token itself, and the snapshot that applying the token to the
    /// session's position yields. An illegal token changes nothing.
    pub fn play(&mut self, token: &str) -> (r: Result<(), IllegalMoveError>)
        requires
            old(self).wf(),
        ensures
            final(self).wf(),
            r is Ok <==> san_apply(log_fen(old(self).spec_log()), token@) is Some,
            r is Ok ==> {
                let entries = final(self).spec_log();
                &&& entries.len() == old(self).spec_log().len() + 1
                &&& entries.drop_last() == old(self).spec_log()
                &&& entries.last().token@ == token@
                &&& san_apply(log_fen(old(self).spec_log()), token@) == Some(
                    entries.last().snapshot@,
                )
            },
            r is Err ==> *final(self) == *old(self),
    {
        match self.pos.play_token(token) {
            Ok(()) => {
                let entry = LogEntry { token: token.to_owned(), snapshot: self.pos.fen().clone() };
                self.log.push(entry);
                proof {
                    lemma_replays_push(INITIAL_FEN@, old(self).log@, self.log@.last());
                    assert(self.log@.drop_last() =~= old(self).log@);
                }
                Ok(())
            },
            Err(e) => Err(e),
        }
    }
}

/// The round-trip law: a log recorded by a live session always replays.
/// Parsing each recorded token against the replay-reconstructed position
/// and applying it reproduces the recorded snapshot exactly, step by
/// step, so the replay check accepts every honestly recorded log that
/// holds at least one half-move.
pub proof fn lemma_recorded_log_replays(s: &GameSession)
    requires
        s.wf(),
    ensures
        log_replays(s.spec_log()),
{
}

/// The tampering law: changing a single snapshot of a replayable log to
/// any different string makes the log fail replay. Snapshot comparison
/// is exact, not fuzzy — the replayed positions depend only on the
/// tokens, so the altered entry can no longer match its replayed
/// snapshot.
pub proof fn lemma_tampering_detected(good: Seq<LogEntry>, bad: Seq<LogEntry>, k: int)
    requires
        log_replays(good),
        good.len() == bad.len(),
        0 <= k < good.len(),
        forall|i: int| 0 <= i < bad.len() ==> #[trigger] bad[i].token@ == good[i].token@,
        forall|i: int|
            0 <= i < bad.len() && i != k ==> #[trigger] bad[i].snapshot@ == good[i].snapshot@,
        bad[k].snapshot@ != good[k].snapshot@,
    ensures
        !log_replays(bad),
{
    lemma_tamper_from(INITIAL_FEN@, good, bad, k);
}

proof fn lemma_tamper_from(fen: Seq<char>, good: Seq<LogEntry>, bad: Seq<LogEntry>, k: int)
    requires
        replays_from(fen, good),
        good.len() == bad.len(),
        0 <= k < good.len(),
        forall|i: int| 0 <= i < bad.len() ==> #[trigger] bad[i].token@ == good[i].token@,
        forall|i: int|
            0 <= i < bad.len() && i != k ==> #[trigger] bad[i].snapshot@ == good[i].snapshot@,
        bad[k].snapshot@ != good[k].snapshot@,
    ensures
        !replays_from(fen, bad),
    decreases good.len(),
{
    let next = san_apply(fen, good[0].token@)->Some_0;
    assert(san_apply(fen, bad[0].token@) == san_apply(fen, good[0].token@));
    if k == 0 {
        assert(next == good[0].snapshot@);
        assert(next != bad[0].snapshot@);
    } else {
        assert(bad[0].snapshot@ == good[0].snapshot@);
        assert(forall|i: int|
            0 <= i < bad.skip(1).len() ==> #[trigger] bad.skip(1)[i].token@ == good.skip(
                1,
            )[i].token@);
        assert(forall|i: int|
            0 <= i < bad.skip(1).len() && i != k - 1 ==> #[trigger] bad.skip(1)[i].snapshot@
                == good.skip(1)[i].snapshot@);
        assert(bad.skip(1)[k - 1].snapshot@ != good.skip(1)[k - 1].snapshot@);
        lemma_tamper_from(next, good.skip(1), bad.skip(1), k - 1);
    }
}

/// The replay check: whether the submitted log is non-empty and
/// replays, move by move, from the standard starting position, each
/// token resolving to a legal move and each snapshot matching the
/// replayed one exactly. An empty log is never accepted: it records no
/// game at all.
pub fn check_chess_moves(entries: &Vec<LogEntry>) -> (ok: bool)
    ensures
        ok == (entries@.len() > 0 && log_replays(entries@)),
{
    if entries.len() == 0 {
        return false;
    }
    let ghost all = entries@;
    let mut pos = Position::initial();
    let mut i: usize = 0;
    proof {
        assert(all.take(0) =~= Seq::<LogEntry>::empty());
        assert(all.skip(0) =~= all);
    }
    while i < entries.len()
        invariant
            0 <= i <= all.len(),
            entries@ == all,
            replays_from(INITIAL_FEN@, all.take(i as int)),
            pos.spec_fen() == log_fen(all.take(i as int)),
            log_replays(all) == replays_from(pos.spec_fen(), all.skip(i as int)),
        decreases all.len() - i,
    {
        let entry = &entries[i];
        proof {
            assert(all.skip(i as int)[0] == all[i as int]);
            assert(all.skip(i as int).skip(1) =~= all.skip(i + 1));
        }
        match pos.play_token(entry.token.as_str()) {
            Ok(()) => {
                if !(*pos.fen() == entry.snapshot) {
                    return false;
                }
                proof {
                    lemma_replays_push(INITIAL_FEN@, all.take(i as int), all[i as int]);
                    assert(all.take(i as int).push(all[i as int]) =~= all.take(i + 1));
                    assert(all.take(i + 1).last() == all[i as int]);
                }
            },
            Err(_) => {
                return false;
            },
        }
        i = i + 1;
    }
    proof {
        assert(all.skip(all.len() as int) =~= Seq::<LogEntry>::empty());
        assert(all.take(all.len() as int) =~= all);
    }
    true
}

/// The server-side gate for a submitted game log. Succeeds exactly on a
/// non-empty log that replays from the starting position; an empty log
/// is rejected as too short whatever the configured minimum, and a
/// non-empty log that does not replay is rejected as an impossible game.
pub fn validate(entries: &Vec<LogEntry>) -> (r: Result<(), Error>)
    ensures
        r is Ok <==> entries@.len() > 0 && log_replays(entries@),
        entries@.len() == 0 ==> r == Err::<(), Error>(Error::PasswordTooShort),
        entries@.len() > 0 && !log_replays(entries@) ==> r == Err::<(), Error>(
            Error::ImpossibleChessGame,
        ),
{
    if entries.len() == 0 {
        return Err(Error::PasswordTooShort);
    }
    if check_chess_moves(entries) {
        Ok(())
    } else {
        Err(Error::ImpossibleChessGame)
    }
}

} // verus!
