//! Reading fields out of a position snapshot.
//!
//! A snapshot is a space-separated line whose fifth field is the
//! half-move clock: the number of half-moves since the last capture or
//! pawn move. The engine's own report does not cover the fifty-move
//! rule, so the clock is read here, by a verified scanner, and
//! [`crate::engine::Position::outcome`] layers the rule on top.

use vstd::prelude::*;
use vstd::string::*;

verus! {

/// The index just after the first space at or beyond `i`, if any.
pub open spec fn next_field_start(f: Seq<char>, i: int) -> Option<int>
    decreases f.len() - i,
{
    if i < 0 || i >= f.len() {
        None
    } else if f[i] == ' ' {
        Some(i + 1)
    } else {
        next_field_start(f, i + 1)
    }
}

/// The index where the `k`-th space-separated field starts, counting
/// from 0.
pub open spec fn field_start(f: Seq<char>, k: nat) -> Option<int>
    decreases k,
{
    if k == 0 {
        Some(0)
    } else {
        match field_start(f, (k - 1) as nat) {
            Some(i) => next_field_start(f, i),
            None => None,
        }
    }
}

pub open spec fn spec_is_digit(c: char) -> bool {
    48 <= c as int <= 57
}

pub open spec fn digit_val(c: char) -> int {
    c as int - 48
}

/// The decimal number read from `i` up to the end of the field,
/// accumulated onto `acc`; nothing if a non-digit stands before the
/// field ends.
pub open spec fn digits_value_from(f: Seq<char>, i: int, acc: int) -> Option<int>
    decreases f.len() - i,
{
    if i < 0 || i > f.len() {
        None
    } else if i == f.len() || f[i] == ' ' {
        Some(acc)
    } else if spec_is_digit(f[i]) {
        digits_value_from(f, i + 1, acc * 10 + digit_val(f[i]))
    } else {
        None
    }
}

/// The half-move clock of a snapshot: the number its fifth field
/// spells, if the snapshot has five fields and the fifth starts with a
/// digit.
pub open spec fn spec_halfmove_clock(f: Seq<char>) -> Option<int> {
    match field_start(f, 4) {
        Some(i) => if 0 <= i < f.len() && spec_is_digit(f[i]) {
            digits_value_from(f, i, 0)
        } else {
            None
        },
        None => None,
    }
}

/// Whether the snapshot's half-move clock has reached the fifty-move
/// threshold of a hundred half-moves.
pub open spec fn spec_fifty_move(f: Seq<char>) -> bool {
    spec_halfmove_clock(f) matches Some(n) && n >= 100
}

/// Once no further field start exists, none exists for any later field
/// either.
proof fn lemma_field_start_none(f: Seq<char>, k: nat, m: nat)
    requires
        field_start(f, k) is None,
        k <= m,
    ensures
        field_start(f, m) is None,
    decreases m - k,
{
    if m > k {
        lemma_field_start_none(f, k, (m - 1) as nat);
    }
}

/// Finds the index just after the next space at or beyond `start`.
fn next_field_from(s: &str, start: usize, len: usize) -> (r: Option<usize>)
    requires
        len == s@.len(),
        start <= len,
    ensures
        match r {
            Some(j) => next_field_start(s@, start as int) == Some(j as int) && j <= len,
            None => next_field_start(s@, start as int) is None,
        },
{
    let mut i: usize = start;
    while i < len
        invariant
            start <= i <= len,
            len == s@.len(),
            next_field_start(s@, start as int) == next_field_start(s@, i as int),
        decreases len - i,
    {
        if s.get_char(i) == ' ' {
            return Some(i + 1);
        }
        i = i + 1;
    }
    None
}

/// Reads the digits of the field starting at `i`, saturating the
/// running value at 1000 so it always fits a machine word; whether the
/// saturated value reaches any threshold up to 1000 agrees with the
/// true value.
fn digits_saturated(s: &str, i: usize, len: usize, acc: u32, spec_acc: Ghost<int>) -> (r: Option<
    u32,
>)
    requires
        len == s@.len(),
        i <= len,
        0 <= spec_acc@,
        acc <= 1000,
        (acc == spec_acc@ && spec_acc@ <= 1000) || (acc == 1000 && spec_acc@ >= 1000),
    ensures
        match r {
            Some(a) => a <= 1000 && (digits_value_from(s@, i as int, spec_acc@) matches Some(n)
                && ((a == n && n <= 1000) || (a == 1000 && n >= 1000))),
            None => digits_value_from(s@, i as int, spec_acc@) is None,
        },
    decreases len - i,
{
    if i == len {
        return Some(acc);
    }
    let c = s.get_char(i);
    if c == ' ' {
        return Some(acc);
    }
    let code = c as u32;
    if !(48 <= code && code <= 57) {
        return None;
    }
    let d: u32 = code - 48;
    proof {
        assert(spec_is_digit(s@[i as int]));
        assert(d == digit_val(s@[i as int]));
    }
    let grown: u32 = acc * 10 + d;
    let next_acc: u32 = if grown > 1000 {
        1000
    } else {
        grown
    };
    digits_saturated(s, i + 1, len, next_acc, Ghost(spec_acc@ * 10 + d as int))
}

/// Whether the fifty-move threshold is reached in this snapshot: reads
/// the half-move clock and compares it with a hundred half-moves. A
/// snapshot without a readable clock never reaches the threshold.
pub fn fifty_move_reached(s: &str) -> (r: bool)
    ensures
        r == spec_fifty_move(s@),
{
    let len = s.unicode_len();
    let mut start: usize = 0;
    let mut k: usize = 0;
    while k < 4
        invariant
            k <= 4,
            start <= len,
            len == s@.len(),
            field_start(s@, k as nat) == Some(start as int),
        decreases 4 - k,
    {
        match next_field_from(s, start, len) {
            Some(j) => {
                start = j;
                k = k + 1;
            },
            None => {
                proof {
                    assert(field_start(s@, (k + 1) as nat) is None);
                    lemma_field_start_none(s@, (k + 1) as nat, 4);
                }
                return false;
            },
        }
    }
    if start >= len {
        return false;
    }
    let code = s.get_char(start) as u32;
    if !(48 <= code && code <= 57) {
        proof {
            assert(!spec_is_digit(s@[start as int]));
        }
        return false;
    }
    match digits_saturated(s, start, len, 0, Ghost(0int)) {
        Some(a) => a >= 100,
        None => false,
    }
}

} // verus!
