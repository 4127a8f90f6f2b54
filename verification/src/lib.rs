//! Chess-move authentication: a user's password is a full game of chess
//! played against themself. The exact sequence of resulting board positions
//! is the credential.
//!
//! The crate is organised around the flow of a registration or login:
//! a live [`engine::Position`] enumerates legal moves and applies the
//! chosen one (move generation is delegated to the `shakmaty` crate behind
//! trusted wrappers), a [`session::GameSession`] records one notation pair
//! per half-move, the replay validator re-checks a submitted log against an
//! independent replay from the starting position, and the credential module
//! turns the validated snapshots plus a fresh salt into a sequence of
//! digests for storage.

use vstd::prelude::*;

pub mod board;
pub mod credential;
pub mod engine;
pub mod error;
pub mod fen;
pub mod flow;
pub mod pieces;
pub mod session;
pub mod vote;

verus! {

} // verus!
