//! Fixed-point quantities and the rounding rules shared by the game rules.
//!
//! Every length, speed, angle and trauma value is a signed integer count of
//! millionths: a length of 7 pixels is `7_000_000`, a speed of 230 pixels
//! per second is `230_000_000`, an angle of 30 degrees is `30_000_000`.
//! Time steps are whole microseconds. A rate expressed in whole units per
//! second therefore turns into millionths by a plain multiplication with
//! the time step, and only a rate that is itself in millionths needs a
//! division, which rounds toward zero.

use vstd::prelude::*;

verus! {

/// Number of millionths in one whole unit, and of microseconds in a second.
pub const UNIT: i64 = 1_000_000;

/// `v` limited to the closed interval from `lo` to `hi`.
pub open spec fn clamp(v: int, lo: int, hi: int) -> int {
    if v < lo {
        lo
    } else if v > hi {
        hi
    } else {
        v
    }
}

/// The larger of two integers.
pub open spec fn higher(a: int, b: int) -> int {
    if a >= b {
        a
    } else {
        b
    }
}

/// The smaller of two integers.
pub open spec fn lower(a: int, b: int) -> int {
    if a <= b {
        a
    } else {
        b
    }
}

/// Quotient of `n` by a positive `d`, rounded toward zero.
pub open spec fn trunc_div(n: int, d: int) -> int {
    if n >= 0 {
        n / d
    } else {
        -((-n) / d)
    }
}

/// Quotient of `n` by a positive `d`, rounded to the nearest integer, a tie
/// going to the neighbour that is farther from zero.
pub open spec fn round_half_away(n: int, d: int) -> int {
    if n >= 0 {
        (2 * n + d) / (2 * d)
    } else {
        -((2 * (-n) + d) / (2 * d))
    }
}

/// `q` is the quotient of `n` by a positive `d` rounded to the nearest
/// integer, a tie going away from zero: `q * d` lies within half of `d` of
/// `n`, and where it lies exactly half of `d` away, it is the farther from
/// zero of the two candidates.
pub open spec fn is_rounding(n: int, d: int, q: int) -> bool {
    &&& 2 * (n - q * d) <= d
    &&& 2 * (q * d - n) <= d
    &&& n >= 0 ==> 2 * (n - q * d) < d
    &&& n <= 0 ==> 2 * (q * d - n) < d
}

/// What a quantity changing at `rate` millionths per second gains over `dt`
/// microseconds, rounded toward zero.
pub open spec fn scaled(rate: int, dt: int) -> int {
    trunc_div(rate * dt, UNIT as int)
}

/// The rounded quotient is a nearest integer: it lies within half a divisor
/// of the exact quotient, and on a tie its magnitude is the larger one.
pub proof fn lemma_round_half_away_nearest(n: int, d: int)
    requires
        d > 0,
    ensures
        is_rounding(n, d, round_half_away(n, d)),
        n >= 0 ==> round_half_away(n, d) >= 0,
        n <= 0 ==> round_half_away(n, d) <= 0,
{
    let m = if n >= 0 { 2 * n + d } else { 2 * (-n) + d };
    let q = m / (2 * d);
    assert(m == (2 * d) * q + m % (2 * d) && 0 <= m % (2 * d) < 2 * d) by {
        vstd::arithmetic::div_mod::lemma_fundamental_div_mod(m, 2 * d);
        vstd::arithmetic::div_mod::lemma_mod_bound(m, 2 * d);
    }
    assert((2 * d) * q == 2 * (q * d)) by (nonlinear_arith);
    assert(q >= 0) by (nonlinear_arith)
        requires
            m >= 0,
            d > 0,
            m == (2 * d) * q + m % (2 * d),
            m % (2 * d) < 2 * d,
    ;
    if n < 0 {
        assert((-q) * d == -(q * d)) by (nonlinear_arith);
    } else if n == 0 {
        assert(q == 0) by (nonlinear_arith)
            requires
                q >= 0,
                d > 0,
                2 * (q * d) <= d,
        ;
        assert(q * d == 0) by (nonlinear_arith)
            requires
                q == 0,
        ;
    }
}

/// Only one integer is the rounded quotient.
pub proof fn lemma_rounding_unique(n: int, d: int, q: int)
    requires
        d > 0,
        is_rounding(n, d, q),
    ensures
        q == round_half_away(n, d),
{
    lemma_round_half_away_nearest(n, d);
    let r = round_half_away(n, d);
    assert(q * d - r * d == (q - r) * d) by (nonlinear_arith);
    if q > r {
        assert((q - r) * d >= d) by (nonlinear_arith)
            requires
                q - r >= 1,
                d > 0,
        ;
    } else if q < r {
        assert((q - r) * d <= -d) by (nonlinear_arith)
            requires
                q - r <= -1,
                d > 0,
        ;
    }
}

/// Limits `v` to the closed interval from `lo` to `hi`.
pub fn clamp_to(v: i128, lo: i64, hi: i64) -> (r: i64)
    requires
        lo <= hi,
    ensures
        r == clamp(v as int, lo as int, hi as int),
{
    if v < lo as i128 {
        lo
    } else if v > hi as i128 {
        hi
    } else {
        v as i64
    }
}

/// Gain of a quantity that changes at `rate` millionths per second over
/// `dt` microseconds, rounded toward zero.
pub fn scale_by(rate: i64, dt: u32) -> (amount: i128)
    ensures
        amount == scaled(rate as int, dt as int),
        -0x8000_0000_0000_0000 * 0x1_0000_0000 <= amount <= 0x8000_0000_0000_0000 * 0x1_0000_0000,
{
    assert(-0x8000_0000_0000_0000 * 0x1_0000_0000 <= rate * dt <= 0x8000_0000_0000_0000
        * 0x1_0000_0000) by (nonlinear_arith)
        requires
            -0x8000_0000_0000_0000 <= rate < 0x8000_0000_0000_0000,
            0 <= dt < 0x1_0000_0000,
    ;
    let product: i128 = (rate as i128) * (dt as i128);
    product / (UNIT as i128)
}

/// Divides `n` by `d`, rounding to the nearest integer and a tie away from
/// zero.
pub fn round_div(n: i128, d: i128) -> (q: i128)
    requires
        0 < d <= 0x1000_0000_0000_0000_0000_0000_0000_0000,
        -0x1000_0000_0000_0000_0000_0000_0000_0000 <= n <= 0x1000_0000_0000_0000_0000_0000_0000_0000,
    ensures
        q == round_half_away(n as int, d as int),
{
    proof {
        lemma_round_half_away_nearest(n as int, d as int);
    }
    if n >= 0 {
        (2 * n + d) / (2 * d)
    } else {
        let m: i128 = 2 * (-n) + d;
        let h: i128 = m / (2 * d);
        assert(0 <= h <= m) by (nonlinear_arith)
            requires
                h == (m as int) / (2 * d),
                m >= 0,
                d > 0,
        ;
        -h
    }
}

} // verus!
