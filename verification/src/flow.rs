//! The registration and login flow controllers.
//!
//! Both flows are finite state machines driven by three kinds of event:
//! a move chosen on the board, a user's continue/retry action, and a
//! server response. Each transition is a pure step from one state value
//! to the next, so any event-driven front end can drive a flow by
//! calling the step that matches the event and re-rendering from the
//! returned state.
//!
//! Registration plays two games: the first records the credential, the
//! second must repeat it and is checked incrementally after every
//! half-move. On a mismatch the first game's log is kept so the user
//! can retry the confirmation from the start. Completion requires the
//! two logs to be equal at full length; the commit itself is re-checked
//! server-side by [`crate::credential::register_commit`].

use vstd::prelude::*;

use crate::credential::MIN_PASSWORD_LENGTH;
use crate::engine::{san_apply, IllegalMoveError};
use crate::error::Error;
use crate::session::{log_fen, log_replays, GameSession, LogEntry};

verus! {

/// Whether a confirmation game still matches the first game: the just
/// played half-move (the current log's last entry) must equal the first
/// game's entry at the same index, token and snapshot both. An empty
/// current log matches vacuously; a current log longer than the first
/// game's cannot match.
pub open spec fn spec_confirm_matches(first: Seq<LogEntry>, current: Seq<LogEntry>) -> bool {
    ||| current.len() == 0
    ||| {
        &&& current.len() <= first.len()
        &&& current.last().token@ == first[current.len() - 1].token@
        &&& current.last().snapshot@ == first[current.len() - 1].snapshot@
    }
}

/// Whether two logs are equal entry by entry, token and snapshot both.
pub open spec fn spec_logs_equal(a: Seq<LogEntry>, b: Seq<LogEntry>) -> bool {
    &&& a.len() == b.len()
    &&& forall|i: int|
        0 <= i < a.len() ==> ((#[trigger] a[i]).token@ == b[i].token@ && a[i].snapshot@
            == b[i].snapshot@)
}

/// The incremental confirmation check, run after every half-move of the
/// second game: compares only the newest entry against the first game's
/// entry at that index, so a divergence is reported exactly at the
/// half-move that caused it.
pub fn confirm_entry_matches(first: &Vec<LogEntry>, current: &Vec<LogEntry>) -> (r: bool)
    ensures
        r == spec_confirm_matches(first@, current@),
{
    if current.len() == 0 {
        return true;
    }
    if current.len() > first.len() {
        return false;
    }
    let last = &current[current.len() - 1];
    let first_entry = &first[current.len() - 1];
    last.entry_equals(first_entry)
}

/// Exact full-length comparison of two logs.
pub fn logs_equal(a: &Vec<LogEntry>, b: &Vec<LogEntry>) -> (r: bool)
    ensures
        r == spec_logs_equal(a@, b@),
{
    if a.len() != b.len() {
        return false;
    }
    let mut i: usize = 0;
    while i < a.len()
        invariant
            a@.len() == b@.len(),
            0 <= i <= a@.len(),
            forall|j: int|
                0 <= j < i ==> ((#[trigger] a@[j]).token@ == b@[j].token@ && a@[j].snapshot@
                    == b@[j].snapshot@),
        decreases a@.len() - i,
    {
        if !a[i].entry_equals(&b[i]) {
            return false;
        }
        i = i + 1;
    }
    true
}

/// The registration flow. Failure never lands in a dead state: a
/// mismatch during the confirmation game loops back to replaying it,
/// and an abandoned flow is simply dropped with nothing persisted.
#[derive(Debug)]
pub enum RegisterFlow {
    CollectingUsername,
    PlayingFirstGame { username: String, session: GameSession },
    PlayingConfirmationGame { username: String, first_log: Vec<LogEntry>, session: GameSession },
    Committed { username: String, final_log: Vec<LogEntry> },
}

impl RegisterFlow {
    /// Every state carries a well-formed session, and once a first game
    /// has been accepted its log is long enough and replayable.
    pub open spec fn wf(&self) -> bool {
        match self {
            RegisterFlow::CollectingUsername => true,
            RegisterFlow::PlayingFirstGame { session, .. } => session.wf(),
            RegisterFlow::PlayingConfirmationGame { first_log, session, .. } => {
                &&& session.wf()
                &&& log_replays(first_log@)
                &&& first_log@.len() >= MIN_PASSWORD_LENGTH
            },
            RegisterFlow::Committed { final_log, .. } => {
                &&& log_replays(final_log@)
                &&& final_log@.len() >= MIN_PASSWORD_LENGTH
            },
        }
    }

    /// A fresh flow, waiting for a username.
    pub fn start() -> (f: RegisterFlow)
        ensures
            f.wf(),
            f is CollectingUsername,
    {
        RegisterFlow::CollectingUsername
    }

    /// The username step. Advances to the first game only when the
    /// advisory uniqueness check came back negative; a taken username
    /// leaves the flow where it is. Outside the username state the
    /// event is ignored.
    pub fn submit_username(self, username: String, taken: bool) -> (next: RegisterFlow)
        requires
            self.wf(),
        ensures
            next.wf(),
            self is CollectingUsername && !taken ==> (next matches RegisterFlow::PlayingFirstGame {
                username: u,
                session,
            } && u == username && session.spec_log().len() == 0),
            self is CollectingUsername && taken ==> next == self,
            !(self is CollectingUsername) ==> next == self,
    {
        match self {
            RegisterFlow::CollectingUsername => {
                if taken {
                    RegisterFlow::CollectingUsername
                } else {
                    RegisterFlow::PlayingFirstGame { username, session: GameSession::start() }
                }
            },
            other => other,
        }
    }

    /// A move chosen on the board. In either playing state the live
    /// session advances exactly when the token is legal there, and the
    /// recorded pair is the replay-exact one; everything else in the
    /// state — the username, and during confirmation the first game's
    /// log — is untouched. The returned flag says whether the move was
    /// accepted.
    pub fn play_move(self, token: &str) -> (r: (RegisterFlow, bool))
        requires
            self.wf(),
        ensures
            r.0.wf(),
            self matches RegisterFlow::PlayingFirstGame { username, session } ==> {
                let legal = san_apply(log_fen(session.spec_log()), token@) is Some;
                &&& r.1 == legal
                &&& !legal ==> r.0 == self
                &&& legal ==> (r.0 matches RegisterFlow::PlayingFirstGame {
                    username: u2,
                    session: s2,
                } && u2 == username && s2.spec_log().len() == session.spec_log().len() + 1
                    && s2.spec_log().drop_last() == session.spec_log()
                    && s2.spec_log().last().token@ == token@ && san_apply(
                    log_fen(session.spec_log()),
                    token@,
                ) == Some(s2.spec_log().last().snapshot@))
            },
            self matches RegisterFlow::PlayingConfirmationGame {
                username,
                first_log,
                session,
            } ==> {
                let legal = san_apply(log_fen(session.spec_log()), token@) is Some;
                &&& r.1 == legal
                &&& !legal ==> r.0 == self
                &&& legal ==> (r.0 matches RegisterFlow::PlayingConfirmationGame {
                    username: u2,
                    first_log: f2,
                    session: s2,
                } && u2 == username && f2 == first_log && s2.spec_log().len() == session.spec_log()
                    .len() + 1 && s2.spec_log().drop_last() == session.spec_log()
                    && s2.spec_log().last().token@ == token@ && san_apply(
                    log_fen(session.spec_log()),
                    token@,
                ) == Some(s2.spec_log().last().snapshot@))
            },
            self is CollectingUsername || self is Committed ==> r.0 == self && r.1 == false,
    {
        match self {
            RegisterFlow::PlayingFirstGame { username, mut session } => {
                match session.play(token) {
                    Ok(()) => (RegisterFlow::PlayingFirstGame { username, session }, true),
                    Err(IllegalMoveError) => (
                        RegisterFlow::PlayingFirstGame { username, session },
                        false,
                    ),
                }
            },
            RegisterFlow::PlayingConfirmationGame { username, first_log, mut session } => {
                match session.play(token) {
                    Ok(()) => (
                        RegisterFlow::PlayingConfirmationGame { username, first_log, session },
                        true,
                    ),
                    Err(IllegalMoveError) => (
                        RegisterFlow::PlayingConfirmationGame { username, first_log, session },
                        false,
                    ),
                }
            },
            other => (other, false),
        }
    }

    /// The continue action after the first game. Accepted only once the
    /// game has at least the minimum number of half-moves: the recorded
    /// log becomes the credential candidate and a fresh session starts
    /// the confirmation game. A too-short game leaves the flow where it
    /// is, as does the event in any other state.
    pub fn continue_first(self) -> (next: RegisterFlow)
        requires
            self.wf(),
        ensures
            next.wf(),
            self matches RegisterFlow::PlayingFirstGame { username, session } ==> {
                if session.spec_log().len() >= MIN_PASSWORD_LENGTH {
                    next matches RegisterFlow::PlayingConfirmationGame {
                        username: u2,
                        first_log: f2,
                        session: s2,
                    } && u2 == username && f2@ == session.spec_log() && s2.spec_log().len() == 0
                } else {
                    next == self
                }
            },
            !(self is PlayingFirstGame) ==> next == self,
    {
        match self {
            RegisterFlow::PlayingFirstGame { username, session } => {
                if session.len() >= MIN_PASSWORD_LENGTH {
                    proof {
                        crate::session::lemma_recorded_log_replays(&session);
                    }
                    let first_log = session.into_log();
                    RegisterFlow::PlayingConfirmationGame {
                        username,
                        first_log,
                        session: GameSession::start(),
                    }
                } else {
                    RegisterFlow::PlayingFirstGame { username, session }
                }
            },
            other => other,
        }
    }

    /// The incremental check of the confirmation game, for display
    /// after every half-move: true while the newest half-move still
    /// matches the first game at its index.
    pub fn confirmation_matches(&self) -> (r: bool)
        requires
            self.wf(),
        ensures
            self matches RegisterFlow::PlayingConfirmationGame { first_log, session, .. } ==> r
                == spec_confirm_matches(first_log@, session.spec_log()),
            !(self is PlayingConfirmationGame) ==> r == true,
    {
        match self {
            RegisterFlow::PlayingConfirmationGame { first_log, session, .. } => {
                confirm_entry_matches(first_log, session.log())
            },
            _ => true,
        }
    }

    /// Whether the confirmation game has repeated the whole first game:
    /// same length and still matching.
    pub fn confirmation_complete(&self) -> (r: bool)
        requires
            self.wf(),
        ensures
            self matches RegisterFlow::PlayingConfirmationGame { first_log, session, .. } ==> r
                == (session.spec_log().len() == first_log@.len() && spec_confirm_matches(
                first_log@,
                session.spec_log(),
            )),
            !(self is PlayingConfirmationGame) ==> r == false,
    {
        match self {
            RegisterFlow::PlayingConfirmationGame { first_log, session, .. } => {
                session.len() == first_log.len() && confirm_entry_matches(first_log, session.log())
            },
            _ => false,
        }
    }

    /// The retry action after a confirmation mismatch: the confirmation
    /// game restarts from an empty board while the first game's log is
    /// preserved unchanged for the next attempt.
    pub fn retry_confirmation(self) -> (next: RegisterFlow)
        requires
            self.wf(),
        ensures
            next.wf(),
            self matches RegisterFlow::PlayingConfirmationGame { username, first_log, .. } ==> (
            next matches RegisterFlow::PlayingConfirmationGame {
                username: u2,
                first_log: f2,
                session: s2,
            } && u2 == username && f2 == first_log && s2.spec_log().len() == 0),
            !(self is PlayingConfirmationGame) ==> next == self,
    {
        match self {
            RegisterFlow::PlayingConfirmationGame { username, first_log, .. } => {
                RegisterFlow::PlayingConfirmationGame {
                    username,
                    first_log,
                    session: GameSession::start(),
                }
            },
            other => other,
        }
    }

    /// The continue action at the end of the confirmation game. The
    /// flow commits exactly when the two logs are equal at full length
    /// — a confirmation that is a strict prefix of the first game is
    /// not accepted — and otherwise stays for a retry.
    pub fn finish_confirmation(self) -> (next: RegisterFlow)
        requires
            self.wf(),
        ensures
            next.wf(),
            self matches RegisterFlow::PlayingConfirmationGame {
                username,
                first_log,
                session,
            } ==> {
                if spec_logs_equal(first_log@, session.spec_log()) {
                    next matches RegisterFlow::Committed { username: u2, final_log } && u2
                        == username && final_log@ == session.spec_log()
                } else {
                    next == self
                }
            },
            !(self is PlayingConfirmationGame) ==> next == self,
    {
        match self {
            RegisterFlow::PlayingConfirmationGame { username, first_log, session } => {
                if logs_equal(&first_log, session.log()) {
                    proof {
                        crate::session::lemma_recorded_log_replays(&session);
                    }
                    let final_log = session.into_log();
                    RegisterFlow::Committed { username, final_log }
                } else {
                    RegisterFlow::PlayingConfirmationGame { username, first_log, session }
                }
            },
            other => other,
        }
    }
}

/// The login flow: one game, then a server round trip. A wrong
/// password loops back to replaying the game; any other failure
/// returns to the username step.
#[derive(Debug)]
pub enum LoginFlow {
    CollectingUsername,
    PlayingLoginGame { username: String, session: GameSession },
    VerifyingResult { username: String, attempt_log: Vec<LogEntry> },
    LoggedIn { user_id: String },
}

impl LoginFlow {
    pub open spec fn wf(&self) -> bool {
        match self {
            LoginFlow::PlayingLoginGame { session, .. } => session.wf(),
            _ => true,
        }
    }

    /// A fresh flow, waiting for a username.
    pub fn start() -> (f: LoginFlow)
        ensures
            f.wf(),
            f is CollectingUsername,
    {
        LoginFlow::CollectingUsername
    }

    /// The username step: unconditionally advances to the login game.
    pub fn submit_username(self, username: String) -> (next: LoginFlow)
        requires
            self.wf(),
        ensures
            next.wf(),
            self is CollectingUsername ==> (next matches LoginFlow::PlayingLoginGame {
                username: u,
                session,
            } && u == username && session.spec_log().len() == 0),
            !(self is CollectingUsername) ==> next == self,
    {
        match self {
            LoginFlow::CollectingUsername => {
                LoginFlow::PlayingLoginGame { username, session: GameSession::start() }
            },
            other => other,
        }
    }

    /// A move chosen on the board, exactly as in the registration flow.
    pub fn play_move(self, token: &str) -> (r: (LoginFlow, bool))
        requires
            self.wf(),
        ensures
            r.0.wf(),
            self matches LoginFlow::PlayingLoginGame { username, session } ==> {
                let legal = san_apply(log_fen(session.spec_log()), token@) is Some;
                &&& r.1 == legal
                &&& !legal ==> r.0 == self
                &&& legal ==> (r.0 matches LoginFlow::PlayingLoginGame {
                    username: u2,
                    session: s2,
                } && u2 == username && s2.spec_log().len() == session.spec_log().len() + 1
                    && s2.spec_log().drop_last() == session.spec_log()
                    && s2.spec_log().last().token@ == token@ && san_apply(
                    log_fen(session.spec_log()),
                    token@,
                ) == Some(s2.spec_log().last().snapshot@))
            },
            !(self is PlayingLoginGame) ==> r.0 == self && r.1 == false,
    {
        match self {
            LoginFlow::PlayingLoginGame { username, mut session } => {
                match session.play(token) {
                    Ok(()) => (LoginFlow::PlayingLoginGame { username, session }, true),
                    Err(IllegalMoveError) => (
                        LoginFlow::PlayingLoginGame { username, session },
                        false,
                    ),
                }
            },
            other => (other, false),
        }
    }

    /// The continue action after the game: the attempt log is handed to
    /// the server for verification. The server re-validates it in full,
    /// so nothing is promised of the log here.
    pub fn finish_game(self) -> (next: LoginFlow)
        requires
            self.wf(),
        ensures
            next.wf(),
            self matches LoginFlow::PlayingLoginGame { username, session } ==> (
            next matches LoginFlow::VerifyingResult { username: u2, attempt_log } && u2 == username
                && attempt_log@ == session.spec_log()),
            !(self is PlayingLoginGame) ==> next == self,
    {
        match self {
            LoginFlow::PlayingLoginGame { username, session } => {
                let attempt_log = session.into_log();
                LoginFlow::VerifyingResult { username, attempt_log }
            },
            other => other,
        }
    }

    /// The server's response. Success lands in the terminal state with
    /// the user's identifier; a wrong password loops back to a fresh
    /// login game for the same username; any other failure returns to
    /// the username step.
    pub fn resolve(self, outcome: Result<String, Error>) -> (next: LoginFlow)
        requires
            self.wf(),
        ensures
            next.wf(),
            self matches LoginFlow::VerifyingResult { username, .. } ==> {
                match outcome {
                    Ok(user_id) => next matches LoginFlow::LoggedIn { user_id: id2 } && id2
                        == user_id,
                    Err(Error::WrongPassword) => next matches LoginFlow::PlayingLoginGame {
                        username: u2,
                        session,
                    } && u2 == username && session.spec_log().len() == 0,
                    Err(_) => next is CollectingUsername,
                }
            },
            !(self is VerifyingResult) ==> next == self,
    {
        match self {
            LoginFlow::VerifyingResult { username, attempt_log: _ } => {
                match outcome {
                    Ok(user_id) => LoginFlow::LoggedIn { user_id },
                    Err(Error::WrongPassword) => LoginFlow::PlayingLoginGame {
                        username,
                        session: GameSession::start(),
                    },
                    Err(_) => LoginFlow::CollectingUsername,
                }
            },
            other => other,
        }
    }
}

} // verus!
