//! Gamma correction of LED brightness.
//!
//! A raw brightness `i` in `0..=255` is corrected to `255^((i - 1) / 255)`
//! rounded to the nearest integer. The levels are computed and specified in
//! exact integer arithmetic: `n` is the rounded value when
//! `n - 1/2 <= 255^((i - 1) / 255) < n + 1/2`, and raising the three terms to
//! the 255-th power and clearing the denominators gives
//! `(2n - 1)^255 * 255 <= 2^255 * 255^i < (2n + 1)^255 * 255`.

use vstd::prelude::*;
use vstd::arithmetic::power::pow;
use vstd::arithmetic::power::lemma_pow_positive;
use vstd::arithmetic::power::lemma_pow_increases;
use vstd::arithmetic::power::lemma_pow_distributes;
use vstd::arithmetic::power::lemma1_pow;
use vstd::arithmetic::power::lemma_pow0;
use vstd::arithmetic::power::lemma_pow1;
use vstd::arithmetic::power::lemma_pow_adds;
use crate::natural::Natural;

verus! {

/// Number of raw brightness values.
pub const LEVELS: usize = 256;

/// `2^255 * 255^i`: the 255-th power of `2 * 255^((i - 1) / 255)`, times 255.
pub open spec fn scaled_power(i: nat) -> int {
    pow(2, 255) * pow(255, i)
}

/// `(2n + 1)^255 * 255`: the 255-th power of `2 * (n + 1/2)`, times 255.
pub open spec fn threshold(n: int) -> int {
    pow(2 * n + 1, 255) * 255
}

/// Whether `n` is `255^((i - 1) / 255)` rounded to the nearest integer.
pub open spec fn is_gamma_level(i: nat, n: nat) -> bool {
    threshold(n - 1) <= scaled_power(i) < threshold(n as int)
}

/// `255^((i - 1) / 255)` rounded to the nearest integer.
pub open spec fn gamma_level(i: nat) -> nat {
    choose|n: nat| is_gamma_level(i, n)
}

/// A power grows with its base, for natural bases.
proof fn lemma_pow_base_increases(a: nat, b: nat, e: nat)
    requires
        a <= b,
    ensures
        0 <= pow(a as int, e) <= pow(b as int, e),
    decreases e,
{
    reveal(pow);
    if e > 0 {
        lemma_pow_base_increases(a, b, (e - 1) as nat);
        let x = pow(a as int, (e - 1) as nat);
        let y = pow(b as int, (e - 1) as nat);
        assert(0 <= a * x <= b * y) by (nonlinear_arith)
            requires
                0 <= a <= b,
                0 <= x <= y,
        ;
    }
}

/// The thresholds grow with the level.
proof fn lemma_threshold_increases(n: nat, m: nat)
    requires
        n <= m,
    ensures
        0 < threshold(n as int) <= threshold(m as int),
{
    lemma_pow_base_increases((2 * n + 1) as nat, (2 * m + 1) as nat, 255);
    lemma_pow_positive((2 * n + 1) as int, 255);
}

/// The scaled powers grow with the raw brightness.
proof fn lemma_scaled_power_increases(i: nat, j: nat)
    requires
        i <= j,
    ensures
        0 < scaled_power(i) <= scaled_power(j),
{
    lemma_pow_increases(255, i, j);
    lemma_pow_positive(255, i);
    lemma_pow_positive(2, 255);
    let k = pow(2, 255);
    let x = pow(255, i);
    let y = pow(255, j);
    assert(0 < k * x <= k * y) by (nonlinear_arith)
        requires
            0 < k,
            0 < x <= y,
    ;
}

/// The rounded value is unique: the predicate defines a function of the raw
/// brightness.
pub proof fn lemma_gamma_level_unique(i: nat, n: nat, m: nat)
    requires
        is_gamma_level(i, n),
        is_gamma_level(i, m),
    ensures
        n == m,
{
    if n < m {
        lemma_threshold_increases(n, (m - 1) as nat);
    }
    if m < n {
        lemma_threshold_increases(m, (n - 1) as nat);
    }
}

/// A value that rounds correctly is the corrected level.
pub proof fn lemma_gamma_level_is(i: nat, n: nat)
    requires
        is_gamma_level(i, n),
    ensures
        gamma_level(i) == n,
{
    lemma_gamma_level_unique(i, n, gamma_level(i));
}

/// Correction never inverts brightness: a larger raw value has at least as
/// large a rounded value.
proof fn lemma_rounding_monotonic(i: nat, j: nat, n: nat, m: nat)
    requires
        i <= j,
        is_gamma_level(i, n),
        is_gamma_level(j, m),
    ensures
        n <= m,
{
    if m < n {
        lemma_threshold_increases(m, (n - 1) as nat);
        lemma_scaled_power_increases(i, j);
    }
}

/// Two to the `e` exceeds `e`.
proof fn lemma_pow2_exceeds(e: nat)
    ensures
        pow(2, e) > e,
    decreases e,
{
    reveal(pow);
    if e > 0 {
        lemma_pow2_exceeds((e - 1) as nat);
    }
}

/// Level 1 is not too large for raw brightness 0.
proof fn lemma_first_threshold()
    ensures
        threshold(0) <= scaled_power(0),
{
    lemma1_pow(255);
    lemma_pow0(255);
    lemma_pow2_exceeds(255);
}

/// Every raw brightness up to 255 lies below the threshold of level 255, so
/// the corrected levels fit in a byte.
proof fn lemma_scaled_power_below_top(i: nat)
    requires
        i <= 255,
    ensures
        scaled_power(i) < threshold(255),
{
    lemma_scaled_power_increases(i, 255);
    lemma_pow_distributes(2, 255, 255);
    lemma_pow_base_increases(510, 511, 255);
    lemma_pow_positive(511, 255);
    assert(2 * 255 == 510);
    let top = pow(511, 255);
    assert(top < top * 255) by (nonlinear_arith)
        requires
            0 < top,
    ;
}

/// Below any threshold that exceeds the scaled power there is a level whose
/// two thresholds enclose it.
proof fn lemma_level_below(i: nat, n: nat)
    requires
        scaled_power(i) < threshold(n as int),
    ensures
        exists|m: nat| 1 <= m <= n && is_gamma_level(i, m),
    decreases n,
{
    if n == 0 {
        lemma_first_threshold();
        lemma_scaled_power_increases(0, i);
    } else if threshold(n - 1) <= scaled_power(i) {
        assert(is_gamma_level(i, n));
    } else {
        lemma_level_below(i, (n - 1) as nat);
    }
}

/// Every raw brightness has a corrected level, and it fits in a byte.
pub proof fn lemma_gamma_level_rounds(i: nat)
    requires
        i < LEVELS,
    ensures
        is_gamma_level(i, gamma_level(i)),
        1 <= gamma_level(i) <= 255,
{
    lemma_scaled_power_below_top(i);
    lemma_level_below(i, 255);
    let m = choose|m: nat| 1 <= m <= 255 && is_gamma_level(i, m);
    lemma_gamma_level_is(i, m);
}

/// Correction never inverts brightness: the corrected level does not
/// decrease as the raw brightness grows.
pub proof fn lemma_gamma_level_monotonic(i: nat, j: nat)
    requires
        i <= j < LEVELS,
    ensures
        gamma_level(i) <= gamma_level(j),
{
    lemma_gamma_level_rounds(i);
    lemma_gamma_level_rounds(j);
    lemma_rounding_monotonic(i, j, gamma_level(i), gamma_level(j));
}

/// The 255-th power by repeated squaring.
spec fn pow255(x: int) -> int {
    let x2 = x * x;
    let x3 = x2 * x;
    let x6 = x3 * x3;
    let x7 = x6 * x;
    let x14 = x7 * x7;
    let x15 = x14 * x;
    let x30 = x15 * x15;
    let x31 = x30 * x;
    let x62 = x31 * x31;
    let x63 = x62 * x;
    let x126 = x63 * x63;
    let x127 = x126 * x;
    let x254 = x127 * x127;
    x254 * x
}

/// Repeated squaring gives the 255-th power.
proof fn lemma_pow255(x: int)
    ensures
        pow(x, 255) == pow255(x),
{
    lemma_pow1(x);
    lemma_pow_adds(x, 1, 1);
    lemma_pow_adds(x, 2, 1);
    lemma_pow_adds(x, 3, 3);
    lemma_pow_adds(x, 6, 1);
    lemma_pow_adds(x, 7, 7);
    lemma_pow_adds(x, 14, 1);
    lemma_pow_adds(x, 15, 15);
    lemma_pow_adds(x, 30, 1);
    lemma_pow_adds(x, 31, 31);
    lemma_pow_adds(x, 62, 1);
    lemma_pow_adds(x, 63, 63);
    lemma_pow_adds(x, 126, 1);
    lemma_pow_adds(x, 127, 127);
    lemma_pow_adds(x, 254, 1);
}

/// The two ends of the correction curve: raw 0 is corrected to 1 and raw 255
/// to 250.
pub proof fn lemma_gamma_level_ends()
    ensures
        gamma_level(0) == 1,
        gamma_level(255) == 250,
{
    lemma_pow0(255);
    lemma_pow255(1);
    lemma_pow255(2);
    lemma_pow255(3);
    assert(pow255(1) * 255 <= pow255(2) * 1 && pow255(2) * 1 < pow255(3) * 255)
        by (nonlinear_arith);
    lemma_gamma_level_is(0, 1);
    lemma_pow255(255);
    lemma_pow255(499);
    lemma_pow255(501);
    assert(pow255(499) * 255 <= pow255(2) * pow255(255) && pow255(2) * pow255(255) < pow255(501)
        * 255) by (nonlinear_arith);
    lemma_gamma_level_is(255, 250);
}

/// One more factor of 255 moves the scaled power to the next raw brightness.
proof fn lemma_scaled_power_step(i: nat)
    ensures
        scaled_power(i + 1) == scaled_power(i) * 255,
{
    reveal(pow);
    let k = pow(2, 255);
    let x = pow(255, i);
    assert(pow(255, i + 1) == 255 * x);
    assert(k * (255 * x) == (k * x) * 255) by (nonlinear_arith);
}

/// The corrected level of every raw brightness, in order.
pub fn gamma_row() -> (row: Vec<u8>)
    ensures
        row@.len() == LEVELS,
        forall|i: int| 0 <= i < LEVELS ==> #[trigger] row@[i] == gamma_level(i as nat),
        forall|i: int| 0 <= i < LEVELS ==> is_gamma_level(i as nat, #[trigger] row@[i] as nat),
{
    let mut row: Vec<u8> = Vec::new();
    let mut target = Natural::pow_small(2, 255);
    let mut n: u32 = 1;
    let mut upper = Natural::pow_small(3, 255).mul_small(255);
    let mut i: usize = 0;
    proof {
        lemma_pow0(255);
        lemma_first_threshold();
    }
    while i < LEVELS
        invariant
            i <= LEVELS,
            row@.len() == i,
            1 <= n <= 255,
            target@ == scaled_power(i as nat),
            upper@ == threshold(n as int),
            threshold(n - 1) <= target@,
            forall|j: int| 0 <= j < i ==> is_gamma_level(j as nat, #[trigger] row@[j] as nat),
        decreases LEVELS - i,
    {
        while !target.lt(&upper)
            invariant
                i < LEVELS,
                1 <= n <= 255,
                target@ == scaled_power(i as nat),
                upper@ == threshold(n as int),
                threshold(n - 1) <= target@,
            decreases 255 - n,
        {
            proof {
                lemma_scaled_power_below_top(i as nat);
            }
            n = n + 1;
            upper = Natural::pow_small(2 * n + 1, 255).mul_small(255);
        }
        row.push(n as u8);
        proof {
            lemma_scaled_power_step(i as nat);
            lemma_scaled_power_increases(i as nat, (i + 1) as nat);
        }
        target = target.mul_small(255);
        i = i + 1;
    }
    proof {
        assert forall|j: int| 0 <= j < LEVELS implies #[trigger] row@[j] == gamma_level(
            j as nat,
        ) by {
            lemma_gamma_level_is(j as nat, row@[j] as nat);
        }
    }
    row
}

} // verus!
