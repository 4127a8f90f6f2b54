//! The error taxonomy shared by the whole crate.
//!
//! Only a few variants are produced by the verified core itself:
//! `ImpossibleChessGame` when a submitted game log does not replay to a
//! legal game, `WrongPassword` when a replayed login game derives digests
//! that differ from the stored credential, `PasswordTooShort` when a game
//! has fewer half-moves than the configured minimum, and `DoesNotExist`
//! when a record is missing. The remaining variants exist for the
//! surrounding storage and transport layers, which map their own failures
//! into this type.

use vstd::prelude::*;

verus! {

#[derive(Clone, Debug, PartialEq, Eq)]
pub enum Error {
    Database(String),
    Decode(String),
    Encode(String),
    WebSocket(String),
    Forbidden(String),
    FileSystem(String),
    DoesNotExist(String),
    ServerFnError(String),
    ImpossibleChessGame,
    WrongPassword,
    PasswordTooShort,
}

impl Error {
    /// The fixed, non-revealing description of the variant.
    ///
    /// Mismatch outcomes are deliberately generic: the text never says at
    /// which half-move a login attempt diverged.
    pub open spec fn spec_message(&self) -> Seq<char> {
        match self {
            Error::Database(_) => "Error from database"@,
            Error::Decode(_) => "Error from serde decode"@,
            Error::Encode(_) => "Error from serde encode"@,
            Error::WebSocket(_) => "Error with web socket"@,
            Error::Forbidden(_) => "This action is not allowed for you"@,
            Error::FileSystem(_) => "There is something missing or not allowed in the file system"@,
            Error::DoesNotExist(_) => "A entry was not found"@,
            Error::ServerFnError(_) => "Server fn error"@,
            Error::ImpossibleChessGame => "An impossible chess game was attempted"@,
            Error::WrongPassword => "The password is incorrect"@,
            Error::PasswordTooShort => "The password is too short"@,
        }
    }

    pub fn message(&self) -> (r: &'static str)
        ensures
            r@ == self.spec_message(),
    {
        match self {
            Error::Database(_) => "Error from database",
            Error::Decode(_) => "Error from serde decode",
            Error::Encode(_) => "Error from serde encode",
            Error::WebSocket(_) => "Error with web socket",
            Error::Forbidden(_) => "This action is not allowed for you",
            Error::FileSystem(_) => "There is something missing or not allowed in the file system",
            Error::DoesNotExist(_) => "A entry was not found",
            Error::ServerFnError(_) => "Server fn error",
            Error::ImpossibleChessGame => "An impossible chess game was attempted",
            Error::WrongPassword => "The password is incorrect",
            Error::PasswordTooShort => "The password is too short",
        }
    }
}

} // verus!
