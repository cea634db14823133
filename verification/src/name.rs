//! The rule that decides which strings may serve as command names.
//!
//! A command name is the key by which the frontend invokes a backend
//! function, so it has to be a plain identifier: a letter or an underscore,
//! followed by letters, digits and underscores, all of them ASCII.

use vstd::prelude::*;
use vstd::string::is_ascii_spec_bytes;

verus! {

/// Whether `c` may open an identifier: an ASCII letter or `_`.
pub open spec fn is_name_start(c: char) -> bool {
    ('a' <= c && c <= 'z') || ('A' <= c && c <= 'Z') || c == '_'
}

/// Whether `c` may follow the first character: an ASCII letter, digit or `_`.
pub open spec fn is_name_continue(c: char) -> bool {
    is_name_start(c) || ('0' <= c && c <= '9')
}

/// Whether `s` is a valid command name.
pub open spec fn is_identifier(s: Seq<char>) -> bool {
    &&& s.len() > 0
    &&& is_name_start(s[0])
    &&& forall|i: int| 0 <= i < s.len() ==> is_name_continue(#[trigger] s[i])
}

/// Decides `is_name_start` on a character.
pub fn name_start(c: char) -> (ok: bool)
    ensures
        ok == is_name_start(c),
{
    ('a' <= c && c <= 'z') || ('A' <= c && c <= 'Z') || c == '_'
}

/// Decides `is_name_continue` on a character.
pub fn name_continue(c: char) -> (ok: bool)
    ensures
        ok == is_name_continue(c),
{
    name_start(c) || ('0' <= c && c <= '9')
}

/// Decides `is_name_start` on the character that the byte `b` encodes.
fn byte_starts(b: u8) -> (ok: bool)
    ensures
        ok == is_name_start(b as char),
{
    // 'a'..='z', 'A'..='Z', '_'
    (0x61 <= b && b <= 0x7a) || (0x41 <= b && b <= 0x5a) || b == 0x5f
}

/// Decides `is_name_continue` on the character that the byte `b` encodes.
fn byte_continues(b: u8) -> (ok: bool)
    ensures
        ok == is_name_continue(b as char),
{
    // '0'..='9'
    byte_starts(b) || (0x30 <= b && b <= 0x39)
}

/// Decides whether `name` is a valid command name, in one pass over its bytes.
pub fn valid_name(name: &str) -> (ok: bool)
    ensures
        ok == is_identifier(name@),
{
    if !name.is_ascii() {
        return false;
    }
    let bytes = name.as_bytes();
    proof {
        is_ascii_spec_bytes(name);
    }
    let n: usize = bytes.len();
    if n == 0 {
        return false;
    }
    if !byte_starts(bytes[0]) {
        return false;
    }
    let mut i: usize = 1;
    while i < n
        invariant
            n == name@.len(),
            n == bytes@.len(),
            1 <= i <= n,
            is_name_start(name@[0]),
            forall|j: int| 0 <= j < n ==> bytes@[j] as char == #[trigger] name@[j],
            forall|j: int| 0 <= j < i ==> is_name_continue(#[trigger] name@[j]),
        decreases n - i,
    {
        if !byte_continues(bytes[i]) {
            assert(!is_name_continue(name@[i as int]));
            return false;
        }
        i += 1;
    }
    true
}

} // verus!
