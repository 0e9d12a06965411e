//! Numbers as text: decimal notation, and reading it back.

use vstd::prelude::*;

#[allow(unused_imports)]
use crate::text::to_chars;

verus! {

/// The character for a digit.
pub open spec fn digit_char(d: int) -> char {
    (48 + d) as char
}

/// Whether `c` is one of `0` to `9`.
pub open spec fn is_digit(c: char) -> bool {
    '0' <= c <= '9'
}

/// The value of a digit.
pub open spec fn digit_value(c: char) -> int {
    c as int - 48
}

/// `n` in decimal notation, without leading zeros.
pub open spec fn decimal(n: nat) -> Seq<char>
    decreases n,
{
    if n < 10 {
        seq![digit_char(n as int)]
    } else {
        decimal(n / 10).push(digit_char((n % 10) as int))
    }
}

/// `i` in decimal notation, with a minus sign in front if it is negative.
pub open spec fn decimal_int(i: int) -> Seq<char> {
    if i < 0 {
        seq!['-'] + decimal((-i) as nat)
    } else {
        decimal(i as nat)
    }
}

/// `i` in decimal notation, with a zero in front of a single digit.
pub open spec fn two_digits(i: int) -> Seq<char> {
    if 0 <= i < 10 {
        seq!['0'] + decimal(i as nat)
    } else {
        decimal_int(i)
    }
}

/// The number that a sequence of digits denotes.
pub open spec fn digits_value(s: Seq<char>) -> nat
    decreases s.len(),
{
    if s.len() == 0 {
        0
    } else {
        (digits_value(s.drop_last()) * 10 + digit_value(s.last())) as nat
    }
}

/// Whether `s` is one digit or more, and nothing else.
pub open spec fn all_digits(s: Seq<char>) -> bool {
    s.len() > 0 && forall|i: int| 0 <= i < s.len() ==> is_digit(#[trigger] s[i])
}

/// The number that `s` denotes: digits, with or without a plus sign in front.
pub open spec fn unsigned_value(s: Seq<char>) -> Option<int> {
    let d = if s.len() > 0 && s[0] == '+' {
        s.skip(1)
    } else {
        s
    };
    if all_digits(d) {
        Some(digits_value(d) as int)
    } else {
        None
    }
}

/// The number that `s` denotes: digits, with or without a sign in front.
pub open spec fn signed_value(s: Seq<char>) -> Option<int> {
    if s.len() > 0 && s[0] == '-' {
        if all_digits(s.skip(1)) {
            Some(-(digits_value(s.skip(1)) as int))
        } else {
            None
        }
    } else {
        unsigned_value(s)
    }
}

/// `v` if it lies between `min` and `max`.
pub open spec fn within(v: Option<int>, min: int, max: int) -> Option<int> {
    match v {
        Some(n) => if min <= n <= max {
            Some(n)
        } else {
            None
        },
        None => None,
    }
}

/// The character for a digit.
fn digit(d: u8) -> (r: char)
    requires
        d < 10,
    ensures
        r == digit_char(d as int),
{
    (48 + d) as char
}

/// `n` in decimal notation.
pub fn decimal_u128(n: u128) -> (r: String)
    ensures
        r@ == decimal(n as nat),
    decreases n,
{
    if n < 10 {
        let mut out = String::new();
        out.push(digit(n as u8));
        assert(out@ == seq![digit_char(n as int)]);
        out
    } else {
        let mut out = decimal_u128(n / 10);
        out.push(digit((n % 10) as u8));
        out
    }
}

/// `n` in decimal notation.
pub fn decimal_u64(n: u64) -> (r: String)
    ensures
        r@ == decimal(n as nat),
{
    decimal_u128(n as u128)
}

/// `i` in decimal notation.
pub fn decimal_i128(i: i128) -> (r: String)
    requires
        i > i128::MIN,
    ensures
        r@ == decimal_int(i as int),
{
    if i < 0 {
        let mut out = String::new();
        out.push('-');
        assert(out@ == seq!['-']);
        out.append(decimal_u128((-i) as u128).as_str());
        out
    } else {
        decimal_u128(i as u128)
    }
}

/// `i` in decimal notation.
pub fn decimal_i64(i: i64) -> (r: String)
    ensures
        r@ == decimal_int(i as int),
{
    decimal_i128(i as i128)
}

/// `i` in decimal notation, with a zero in front of a single digit.
pub fn two_digits_i32(i: i32) -> (r: String)
    ensures
        r@ == two_digits(i as int),
{
    if 0 <= i && i < 10 {
        let mut out = String::new();
        out.push('0');
        assert(out@ == seq!['0']);
        out.append(decimal_u128(i as u128).as_str());
        out
    } else {
        decimal_i128(i as i128)
    }
}

/// The first digits of a number denote no more than all of them.
proof fn lemma_digits_prefix(s: Seq<char>, k: int)
    requires
        0 <= k <= s.len(),
        forall|i: int| 0 <= i < s.len() ==> is_digit(#[trigger] s[i]),
    ensures
        digits_value(s.take(k)) <= digits_value(s),
    decreases s.len(),
{
    if k == s.len() {
        assert(s.take(k) == s);
    } else {
        assert forall|i: int| 0 <= i < s.drop_last().len() implies is_digit(
            #[trigger] s.drop_last()[i],
        ) by {
            assert(is_digit(s[i]));
        }
        lemma_digits_prefix(s.drop_last(), k);
        assert(s.drop_last().take(k) == s.take(k));
        assert(is_digit(s.last()));
    }
}

/// The number that the digits of `v` from `from` on denote, if there is one and it is at most
/// `max`.
fn magnitude(v: &[char], from: usize, max: u64) -> (r: Option<u64>)
    requires
        from <= v@.len(),
    ensures
        match r {
            Some(n) => all_digits(v@.skip(from as int)) && n == digits_value(v@.skip(from as int))
                && n <= max,
            None => !(all_digits(v@.skip(from as int)) && digits_value(v@.skip(from as int))
                <= max),
        },
{
    let ghost d = v@.skip(from as int);
    if from == v.len() {
        return None;
    }
    let mut i: usize = from;
    let mut n: u64 = 0;
    while i < v.len()
        invariant
            from <= i <= v@.len(),
            d == v@.skip(from as int),
            n == digits_value(d.take(i - from)),
            n <= max,
            forall|j: int| 0 <= j < i - from ==> is_digit(#[trigger] d[j]),
        decreases v@.len() - i,
    {
        let c = v[i];
        assert(d[i - from] == c);
        if !('0' <= c && c <= '9') {
            return None;
        }
        let x: u64 = c as u64 - 48;
        let ghost k = i - from;
        assert(d.take(k + 1).drop_last() == d.take(k));
        assert(d.take(k + 1).last() == c);
        let next: u128 = n as u128 * 10 + x as u128;
        if next > max as u128 {
            proof {
                if all_digits(d) {
                    lemma_digits_prefix(d, k + 1);
                }
            }
            return None;
        }
        n = next as u64;
        i = i + 1;
    }
    assert(d.take(i - from) == d);
    Some(n)
}

/// The number that `s` denotes, if it is at most `max`.
pub fn parse_up_to(s: &str, max: u64) -> (r: Option<u64>)
    ensures
        match r {
            Some(n) => within(unsigned_value(s@), 0, max as int) == Some(n as int),
            None => within(unsigned_value(s@), 0, max as int) is None,
        },
{
    let v = to_chars(s);
    if v.len() > 0 && v[0] == '+' {
        magnitude(&v, 1, max)
    } else {
        assert(v@.skip(0) == v@);
        magnitude(&v, 0, max)
    }
}

/// The number that `s` denotes, if it fits in a `u16`.
pub fn parse_u16(s: &str) -> (r: Option<u16>)
    ensures
        match r {
            Some(n) => within(unsigned_value(s@), 0, u16::MAX as int) == Some(n as int),
            None => within(unsigned_value(s@), 0, u16::MAX as int) is None,
        },
{
    match parse_up_to(s, u16::MAX as u64) {
        Some(n) => Some(n as u16),
        None => None,
    }
}

/// The number that `s` denotes, if it fits in a `u32`.
pub fn parse_u32(s: &str) -> (r: Option<u32>)
    ensures
        match r {
            Some(n) => within(unsigned_value(s@), 0, u32::MAX as int) == Some(n as int),
            None => within(unsigned_value(s@), 0, u32::MAX as int) is None,
        },
{
    match parse_up_to(s, u32::MAX as u64) {
        Some(n) => Some(n as u32),
        None => None,
    }
}

/// The number that `s` denotes, if it fits in a `u64`.
pub fn parse_u64(s: &str) -> (r: Option<u64>)
    ensures
        match r {
            Some(n) => within(unsigned_value(s@), 0, u64::MAX as int) == Some(n as int),
            None => within(unsigned_value(s@), 0, u64::MAX as int) is None,
        },
{
    parse_up_to(s, u64::MAX)
}

/// The number that `s` denotes, if it fits in an `i64`.
pub fn parse_i64(s: &str) -> (r: Option<i64>)
    ensures
        match r {
            Some(n) => within(signed_value(s@), i64::MIN as int, i64::MAX as int) == Some(n as int),
            None => within(signed_value(s@), i64::MIN as int, i64::MAX as int) is None,
        },
{
    let v = to_chars(s);
    if v.len() > 0 && v[0] == '-' {
        match magnitude(&v, 1, 0x8000_0000_0000_0000) {
            Some(n) => Some((-(n as i128)) as i64),
            None => None,
        }
    } else {
        match parse_up_to(s, i64::MAX as u64) {
            Some(n) => Some(n as i64),
            None => None,
        }
    }
}

/// The number that `s` denotes, if it fits in an `i32`.
pub fn parse_i32(s: &str) -> (r: Option<i32>)
    ensures
        match r {
            Some(n) => within(signed_value(s@), i32::MIN as int, i32::MAX as int) == Some(n as int),
            None => within(signed_value(s@), i32::MIN as int, i32::MAX as int) is None,
        },
{
    match parse_i64(s) {
        Some(n) => if i32::MIN as i64 <= n && n <= i32::MAX as i64 {
            Some(n as i32)
        } else {
            None
        },
        None => None,
    }
}

/// Decimal notation consists of digits and denotes the number it was made from.
pub proof fn decimal_is_read_back(n: nat)
    ensures
        all_digits(decimal(n)),
        digits_value(decimal(n)) == n,
        unsigned_value(decimal(n)) == Some(n as int),
    decreases n,
{
    if n < 10 {
        let s = decimal(n);
        assert(s.drop_last() == Seq::<char>::empty());
        assert(digits_value(s.drop_last()) == 0);
        assert(s[0] == digit_char(n as int));
    } else {
        decimal_is_read_back(n / 10);
        let s = decimal(n);
        assert(s.drop_last() == decimal(n / 10));
        assert forall|i: int| 0 <= i < s.len() implies is_digit(#[trigger] s[i]) by {
            if i < s.len() - 1 {
                assert(s[i] == decimal(n / 10)[i]);
            }
        }
    }
    assert(is_digit(decimal(n)[0]));
}

/// Decimal notation of any integer denotes that integer.
pub proof fn decimal_int_is_read_back(i: int)
    ensures
        signed_value(decimal_int(i)) == Some(i),
{
    if i < 0 {
        decimal_is_read_back((-i) as nat);
        assert(decimal_int(i).skip(1) == decimal((-i) as nat));
    } else {
        decimal_is_read_back(i as nat);
        assert(is_digit(decimal(i as nat)[0]));
    }
}

} // verus!
