//! Starting up: services that are not there yet are waited for.

use vstd::prelude::*;

#[allow(unused_imports)]
use crate::text::{ascii_lower, to_chars};

verus! {

/// How often a service is tried.
pub const CONNECT_ATTEMPTS: u32 = 10;

/// How many seconds pass after each time.
pub const CONNECT_WAIT_SECS: u64 = 3;

/// Whether a service is tried once more after it was tried `attempts` times.
pub fn tries_again(attempts: u32) -> (r: bool)
    ensures
        r == (attempts < CONNECT_ATTEMPTS),
{
    attempts < CONNECT_ATTEMPTS
}

/// Whether two texts are the same but for the case of the letters from A to Z.
pub open spec fn same_letters(a: Seq<char>, b: Seq<char>) -> bool {
    &&& a.len() == b.len()
    &&& forall|i: int| 0 <= i < a.len() ==> ascii_lower(#[trigger] a[i]) == ascii_lower(b[i])
}

/// The letter in lower case.
fn lower(c: char) -> (r: char)
    ensures
        r == ascii_lower(c),
{
    if 'A' <= c && c <= 'Z' {
        (c as u8 + 32) as char
    } else {
        c
    }
}

/// Whether the store answered a ping as it should.
pub fn is_pong(reply: &str) -> (r: bool)
    ensures
        r == same_letters(reply@, "PONG"@),
{
    let a = to_chars(reply);
    let b = to_chars("PONG");
    if a.len() != b.len() {
        return false;
    }
    let mut i: usize = 0;
    while i < a.len()
        invariant
            i <= a@.len(),
            a@.len() == b@.len(),
            a@ == reply@,
            b@ == "PONG"@,
            forall|j: int| 0 <= j < i ==> ascii_lower(#[trigger] a@[j]) == ascii_lower(b@[j]),
        decreases a@.len() - i,
    {
        if lower(a[i]) != lower(b[i]) {
            assert(ascii_lower(reply@[i as int]) != ascii_lower("PONG"@[i as int]));
            return false;
        }
        i = i + 1;
    }
    true
}

} // verus!
