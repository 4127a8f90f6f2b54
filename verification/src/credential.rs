//! Credential derivation and the server-side commit and verify gates.
//!
//! A validated game is turned into a stored credential by hashing each
//! position snapshot, concatenated with a per-registration salt, into a
//! fixed-size digest. Two credentials are equal only if they have the
//! same length and every digest matches pairwise in order, so the
//! password is the exact sequence of positions in their exact order.
//! A login mismatch is reported as the single generic
//! [`Error::WrongPassword`], never revealing at which half-move the
//! attempt diverged.

use vstd::prelude::*;
use vstd::string::*;

use sha2::Digest as _;

use crate::error::Error;
use crate::session::{log_replays, LogEntry};

verus! {

/// The minimum number of half-moves an acceptable credential game must
/// have. The live flow and the server-side commit gate both read this
/// one constant, so the two checks can never disagree.
pub const MIN_PASSWORD_LENGTH: usize = 4;

/// The length of the salt drawn for each registration.
pub const SALT_LENGTH: u16 = 5;

/// The SHA-256 digest of the UTF-8 bytes of a string: 32 bytes, a
/// function of the characters alone.
pub uninterp spec fn sha256_str(s: Seq<char>) -> Seq<u8>;

/// Relies on sha2's `Sha256::digest`: the digest is 32 bytes and depends
/// on the input bytes alone, named by `sha256_str` over the string's
/// characters.
#[verifier::external_body]
fn sha256_of_str(s: &str) -> (r: Vec<u8>)
    ensures
        r@ == sha256_str(s@),
        r@.len() == 32,
{
    sha2::Sha256::digest(s.as_bytes()).to_vec()
}

/// Relies on `cuid2::CuidConstructor`: for lengths in the range the
/// crate itself validates, `with_length(len).create_id()` returns a
/// fresh identifier of exactly `len` characters (the crate's own
/// documentation asserts the length), drawn from a random source, so
/// nothing beyond the length is promised.
#[verifier::external_body]
fn cuid_with_length(len: u16) -> (r: String)
    requires
        2 <= len <= 32,
    ensures
        r@.len() == len as nat,
{
    cuid2::CuidConstructor::new().with_length(len).create_id()
}

/// Relies on `cuid2::cuid`: a fresh 24-character identifier from a
/// random source; nothing beyond the length is promised.
#[verifier::external_body]
fn new_cuid() -> (r: String)
    ensures
        r@.len() == 24,
{
    cuid2::cuid()
}

/// The digest stored for one half-move: the hash of its snapshot with
/// the salt appended.
pub open spec fn digest_of(snapshot: Seq<char>, salt: Seq<char>) -> Seq<u8> {
    sha256_str(snapshot + salt)
}

/// The digest sequence derived from a sequence of snapshots: one digest
/// per snapshot, in order.
pub open spec fn derive_digests(snapshots: Seq<Seq<char>>, salt: Seq<char>) -> Seq<Seq<u8>> {
    Seq::new(snapshots.len(), |i: int| digest_of(snapshots[i], salt))
}

/// Derives the stored digest list from position snapshots and a salt:
/// for each snapshot, the fixed-size 32-byte hash of the snapshot with
/// the salt appended. A pure function of its two arguments — calling
/// it twice with the same inputs yields the same digests.
pub fn hash_fen_with_salt(fen: &Vec<String>, salt: &str) -> (r: Vec<Vec<u8>>)
    ensures
        r@.len() == fen@.len(),
        forall|i: int| 0 <= i < r@.len() ==> #[trigger] r@[i]@ == digest_of(fen@[i]@, salt@),
        forall|i: int| 0 <= i < r@.len() ==> (#[trigger] r@[i]@).len() == 32,
        r@.map_values(|d: Vec<u8>| d@) == derive_digests(
            fen@.map_values(|s: String| s@),
            salt@,
        ),
{
    let mut r: Vec<Vec<u8>> = Vec::new();
    let mut i: usize = 0;
    while i < fen.len()
        invariant
            0 <= i <= fen@.len(),
            r@.len() == i,
            forall|j: int| 0 <= j < i ==> #[trigger] r@[j]@ == digest_of(fen@[j]@, salt@),
            forall|j: int| 0 <= j < i ==> (#[trigger] r@[j]@).len() == 32,
        decreases fen@.len() - i,
    {
        let joined = fen[i].clone().concat(salt);
        r.push(sha256_of_str(joined.as_str()));
        i = i + 1;
    }
    proof {
        assert(r@.map_values(|d: Vec<u8>| d@) =~= derive_digests(
            fen@.map_values(|s: String| s@),
            salt@,
        ));
    }
    r
}

/// Deriving from the same snapshots and salt always yields the same
/// digest sequence: any two lists that each satisfy the derivation
/// relation for one input are equal.
pub proof fn lemma_derivation_deterministic(
    first: Seq<Seq<u8>>,
    second: Seq<Seq<u8>>,
    snapshots: Seq<Seq<char>>,
    salt: Seq<char>,
)
    requires
        first.len() == snapshots.len(),
        forall|i: int| 0 <= i < first.len() ==> #[trigger] first[i] == digest_of(
            snapshots[i],
            salt,
        ),
        second.len() == snapshots.len(),
        forall|i: int| 0 <= i < second.len() ==> #[trigger] second[i] == digest_of(
            snapshots[i],
            salt,
        ),
    ensures
        first == second,
{
    assert(first =~= second);
}

/// Changing one snapshot leaves every other derived digest unchanged:
/// the digest at each position depends only on the snapshot at that
/// position and the salt.
pub proof fn lemma_derivation_locality(
    first: Seq<Seq<char>>,
    second: Seq<Seq<char>>,
    salt: Seq<char>,
    k: int,
)
    requires
        first.len() == second.len(),
        0 <= k < first.len(),
        forall|i: int| 0 <= i < first.len() && i != k ==> first[i] == second[i],
    ensures
        forall|i: int|
            0 <= i < first.len() && i != k ==> derive_digests(first, salt)[i] == derive_digests(
                second,
                salt,
            )[i],
{
}

/// Byte-for-byte comparison of two digests.
fn bytes_equal(a: &Vec<u8>, b: &Vec<u8>) -> (r: bool)
    ensures
        r == (a@ == b@),
{
    if a.len() != b.len() {
        proof {
            assert(a@.len() != b@.len() ==> a@ != b@);
        }
        return false;
    }
    let mut i: usize = 0;
    while i < a.len()
        invariant
            a@.len() == b@.len(),
            0 <= i <= a@.len(),
            forall|j: int| 0 <= j < i ==> a@[j] == b@[j],
        decreases a@.len() - i,
    {
        if a[i] != b[i] {
            return false;
        }
        i = i + 1;
    }
    proof {
        assert(a@ =~= b@);
    }
    true
}

/// Whether two digest sequences denote the same credential: equal
/// length and every digest byte-equal pairwise, in order. Two games
/// that reach the same final board through different intermediate
/// positions derive different sequences, and this comparison rejects
/// them.
pub fn credentials_equal(a: &Vec<Vec<u8>>, b: &Vec<Vec<u8>>) -> (r: bool)
    ensures
        r == (a@.len() == b@.len() && (forall|i: int|
            0 <= i < a@.len() ==> #[trigger] a@[i]@ == b@[i]@)),
{
    if a.len() != b.len() {
        return false;
    }
    let mut i: usize = 0;
    while i < a.len()
        invariant
            a@.len() == b@.len(),
            0 <= i <= a@.len(),
            forall|j: int| 0 <= j < i ==> #[trigger] a@[j]@ == b@[j]@,
        decreases a@.len() - i,
    {
        if !bytes_equal(&a[i], &b[i]) {
            return false;
        }
        i = i + 1;
    }
    true
}

/// A stored credential: the record written once at registration commit
/// and read back at login. The digest list has one entry per half-move
/// of the committed game.
#[derive(Clone, Debug)]
pub struct CredentialRecord {
    pub user_id: String,
    pub username: String,
    pub salt: String,
    pub digests: Vec<Vec<u8>>,
}

/// Whether the digests derived from a submitted log with the stored
/// salt equal the stored digest sequence.
pub open spec fn digests_match(
    entries: Seq<LogEntry>,
    salt: Seq<char>,
    stored: Seq<Vec<u8>>,
) -> bool {
    stored.len() == entries.len() && (forall|i: int|
        0 <= i < stored.len() ==> #[trigger] stored[i]@ == digest_of(entries[i].snapshot@, salt))
}

/// The server-side commit gate of a registration. Re-validates the
/// submitted log by independent replay, enforces the minimum half-move
/// count, draws a fresh salt and user identifier, and derives the
/// stored digests. Succeeds exactly on a log of at least
/// [`MIN_PASSWORD_LENGTH`] half-moves that replays from the starting
/// position; shorter logs (the empty log included) are rejected as too
/// short, and long-enough logs that do not replay are rejected as an
/// impossible game.
pub fn register_commit(username: String, entries: &Vec<LogEntry>) -> (r: Result<
    CredentialRecord,
    Error,
>)
    ensures
        r is Ok <==> entries@.len() >= MIN_PASSWORD_LENGTH && log_replays(entries@),
        entries@.len() < MIN_PASSWORD_LENGTH ==> r == Err::<CredentialRecord, Error>(
            Error::PasswordTooShort,
        ),
        entries@.len() >= MIN_PASSWORD_LENGTH && !log_replays(entries@) ==> r == Err::<
            CredentialRecord,
            Error,
        >(Error::ImpossibleChessGame),
        r matches Ok(rec) ==> {
            &&& rec.username@ == username@
            &&& rec.user_id@.len() == 24
            &&& rec.salt@.len() == SALT_LENGTH as nat
            &&& rec.digests@.len() == entries@.len()
            &&& forall|i: int|
                0 <= i < entries@.len() ==> #[trigger] rec.digests@[i]@ == digest_of(
                    entries@[i].snapshot@,
                    rec.salt@,
                )
            &&& forall|i: int| 0 <= i < rec.digests@.len() ==> (#[trigger] rec.digests@[i]@).len()
                == 32
        },
{
    if entries.len() < MIN_PASSWORD_LENGTH {
        return Err(Error::PasswordTooShort);
    }
    if !crate::session::check_chess_moves(entries) {
        return Err(Error::ImpossibleChessGame);
    }
    let salt = cuid_with_length(SALT_LENGTH);
    let user_id = new_cuid();
    let mut snapshots: Vec<String> = Vec::new();
    let mut i: usize = 0;
    while i < entries.len()
        invariant
            0 <= i <= entries@.len(),
            snapshots@.len() == i,
            forall|j: int| 0 <= j < i ==> #[trigger] snapshots@[j]@ == entries@[j].snapshot@,
        decreases entries@.len() - i,
    {
        snapshots.push(entries[i].snapshot.clone());
        i = i + 1;
    }
    let digests = hash_fen_with_salt(&snapshots, salt.as_str());
    Ok(CredentialRecord { user_id, username, salt, digests })
}

/// The server-side verification gate of a login. Re-validates the
/// submitted log by independent replay, derives digests with the stored
/// salt, and compares them with the stored sequence. Succeeds exactly
/// when a non-empty log replays and every digest matches in order; any
/// digest difference — wherever it lies — yields the one generic
/// [`Error::WrongPassword`].
pub fn verify_login(entries: &Vec<LogEntry>, salt: &str, stored: &Vec<Vec<u8>>) -> (r: Result<
    (),
    Error,
>)
    ensures
        r is Ok <==> entries@.len() > 0 && log_replays(entries@) && digests_match(
            entries@,
            salt@,
            stored@,
        ),
        entries@.len() == 0 ==> r == Err::<(), Error>(Error::PasswordTooShort),
        entries@.len() > 0 && !log_replays(entries@) ==> r == Err::<(), Error>(
            Error::ImpossibleChessGame,
        ),
        entries@.len() > 0 && log_replays(entries@) && !digests_match(entries@, salt@, stored@)
            ==> r == Err::<(), Error>(Error::WrongPassword),
{
    match crate::session::validate(entries) {
        Ok(()) => {},
        Err(e) => {
            return Err(e);
        },
    }
    let mut snapshots: Vec<String> = Vec::new();
    let mut i: usize = 0;
    while i < entries.len()
        invariant
            0 <= i <= entries@.len(),
            snapshots@.len() == i,
            forall|j: int| 0 <= j < i ==> #[trigger] snapshots@[j]@ == entries@[j].snapshot@,
        decreases entries@.len() - i,
    {
        snapshots.push(entries[i].snapshot.clone());
        i = i + 1;
    }
    let derived = hash_fen_with_salt(&snapshots, salt);
    if credentials_equal(stored, &derived) {
        Ok(())
    } else {
        Err(Error::WrongPassword)
    }
}

} // verus!
