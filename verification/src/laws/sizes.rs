//! Laws of sizes in words.

use vstd::prelude::*;

#[allow(unused_imports)]
use crate::text::number::{decimal, decimal_int, two_digits};
#[allow(unused_imports)]
use crate::utils::{nearest, rounded, size_text, spacing};

verus! {

/// The nearest whole number to a quotient is no further from it than a half, and where two are just
/// as near it is the even one.
pub proof fn the_nearest_number_is_half_away_at_most(n: nat, d: nat)
    requires
        d > 0,
    ensures
        2 * (nearest(n, d) * d) <= 2 * n + d,
        2 * n <= 2 * (nearest(n, d) * d) + d,
        2 * (nearest(n, d) * d) == 2 * n + d ==> nearest(n, d) % 2 == 0,
        2 * n == 2 * (nearest(n, d) * d) + d ==> nearest(n, d) % 2 == 0,
{
    let q = n / d;
    let r = n % d;
    vstd::arithmetic::div_mod::lemma_fundamental_div_mod(n as int, d as int);
    assert(d * q == q * d) by (nonlinear_arith);
    assert((q + 1) * d == q * d + d) by (nonlinear_arith);
}

/// A number up to 2 to the power of 53 is told exactly; a larger one is told in steps that are a
/// power of two, and of which it has no more than that many.
pub proof fn large_numbers_are_told_in_steps(n: nat)
    ensures
        n < 0x20_0000_0000_0000 ==> rounded(n) == n,
        n >= 0x20_0000_0000_0000 ==> spacing(n) * 0x10_0000_0000_0000 <= n < spacing(n)
            * 0x20_0000_0000_0000,
        spacing(n) >= 1,
        n >= 0x20_0000_0000_0000 ==> spacing(n) == 2 * spacing(n / 2),
        2 * rounded(n) <= 2 * n + spacing(n),
        2 * n <= 2 * rounded(n) + spacing(n),
{
    lemma_spacing(n);
    the_nearest_number_is_half_away_at_most(n, spacing(n));
    if n < 0x20_0000_0000_0000 {
        assert(n / 1 == n && n % 1 == 0);
    }
}

/// The steps in which a number is told.
proof fn lemma_spacing(n: nat)
    ensures
        spacing(n) >= 1,
        n < 0x20_0000_0000_0000 ==> spacing(n) == 1,
        n >= 0x20_0000_0000_0000 ==> spacing(n) * 0x10_0000_0000_0000 <= n < spacing(n)
            * 0x20_0000_0000_0000,
    decreases n,
{
    if n >= 0x20_0000_0000_0000 {
        lemma_spacing(n / 2);
        let s = spacing(n / 2);
        if n / 2 >= 0x20_0000_0000_0000 {
            assert(2 * (n / 2) <= n < 2 * (n / 2) + 2);
        }
    }
}

/// A size in words. Below 1024 bytes it is told in bytes. From there on it is told in the largest of
/// three units that it holds once: in kilobytes to the tenth, in megabytes and gigabytes to the
/// hundredth; what is told is no further from the size than half of the last digit.
pub proof fn sizes_are_told_in_the_largest_unit(bytes: i64) -> (h: nat)
    requires
        bytes < 0x20_0000_0000_0000,
    ensures
        bytes < 1024 ==> size_text(bytes as int) == decimal_int(bytes as int) + " B"@,
        1024 <= bytes < 1024 * 1024 ==> {
            &&& size_text(bytes as int) == decimal(h / 10) + seq!['.'] + decimal(h % 10) + " KB"@
            &&& 2 * (h * 1024) <= 2 * (bytes * 10) + 1024
            &&& 2 * (bytes * 10) <= 2 * (h * 1024) + 1024
        },
        1024 * 1024 <= bytes < 1024 * 1024 * 1024 ==> {
            &&& size_text(bytes as int) == decimal(h / 100) + seq!['.'] + two_digits(
                (h % 100) as int,
            ) + " MB"@
            &&& 2 * (h * 1048576) <= 2 * (bytes * 100) + 1048576
            &&& 2 * (bytes * 100) <= 2 * (h * 1048576) + 1048576
        },
        1024 * 1024 * 1024 <= bytes ==> {
            &&& size_text(bytes as int) == decimal(h / 100) + seq!['.'] + two_digits(
                (h % 100) as int,
            ) + " GB"@
            &&& 2 * (h * 1073741824) <= 2 * (bytes * 100) + 1073741824
            &&& 2 * (bytes * 100) <= 2 * (h * 1073741824) + 1073741824
        },
{
    reveal_strlit(".");
    assert("."@ =~= seq!['.']);
    if bytes < 1024 {
        0
    } else {
        let b = bytes as nat;
        large_numbers_are_told_in_steps(b);
        if bytes < 1024 * 1024 {
            the_nearest_number_is_half_away_at_most(b * 10, 1024);
            nearest(b * 10, 1024)
        } else if bytes < 1024 * 1024 * 1024 {
            the_nearest_number_is_half_away_at_most(b * 100, 1048576);
            nearest(b * 100, 1048576)
        } else {
            the_nearest_number_is_half_away_at_most(b * 100, 1073741824);
            nearest(b * 100, 1073741824)
        }
    }
}

} // verus!
