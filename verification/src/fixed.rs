//! Fixed-point arithmetic shared by every widget kind.
//!
//! A quantity is an `i64` holding millionths of a unit: `SCALE` stands for
//! 1.0.  Animation progress, easing inputs and outputs, and colour channels
//! live in `[0, SCALE]`; widget values (slider positions, progress amounts,
//! pixel sizes) are bounded by `VAL_MAX` so that products fit comfortably in
//! 128-bit intermediates.

use vstd::prelude::*;

verus! {

/// Fixed-point units in one whole unit: six decimal places.
pub const SCALE: i64 = 1_000_000;

/// Largest magnitude a widget value may take (one million whole units).
pub const VAL_MAX: i64 = 1_000_000_000_000;

/// Whether a widget value is in the representable band.
pub open spec fn fits(v: int) -> bool {
    -VAL_MAX <= v <= VAL_MAX
}

/// Quotient rounded toward zero, the rounding every runtime division uses.
/// Callers only apply it with `b > 0`.
pub open spec fn tdiv(a: int, b: int) -> int {
    if a >= 0 {
        a / b
    } else {
        -((-a) / b)
    }
}

/// Quotient rounded to the nearest integer, ties away from zero.
pub open spec fn rdiv(a: int, b: int) -> int {
    if a >= 0 {
        (2 * a + b) / (2 * b)
    } else {
        -((2 * (-a) + b) / (2 * b))
    }
}

/// `v` forced into `[lo, hi]`.
pub open spec fn clamp_spec(v: int, lo: int, hi: int) -> int {
    if v < lo {
        lo
    } else if v > hi {
        hi
    } else {
        v
    }
}

pub fn clamp64(v: i64, lo: i64, hi: i64) -> (r: i64)
    requires
        lo <= hi,
    ensures
        r == clamp_spec(v as int, lo as int, hi as int),
{
    if v < lo {
        lo
    } else if v > hi {
        hi
    } else {
        v
    }
}

/// `a * b / d` rounded toward zero, computed without overflow through
/// 128-bit magnitudes.
pub fn mul_div(a: i64, b: i64, d: i64) -> (r: i64)
    requires
        d > 0,
        a > i64::MIN,
        b > i64::MIN,
        -(i64::MAX as int) <= tdiv(a as int * b as int, d as int) <= i64::MAX as int,
    ensures
        r == tdiv(a as int * b as int, d as int),
{
    let ghost ai = a as int;
    let ghost bi = b as int;
    let ghost di = d as int;
    let neg: bool = (a < 0) != (b < 0);
    let am: u128 = (if a < 0 { -a } else { a }) as u128;
    let bm: u128 = (if b < 0 { -b } else { b }) as u128;
    proof {
        assert(am * bm == abs_int(ai * bi) && am * bm <= (i64::MAX as int) * (i64::MAX as int))
            by (nonlinear_arith)
            requires
                am == abs_int(ai),
                bm == abs_int(bi),
                am <= i64::MAX as int,
                bm <= i64::MAX as int,
        ;
    }
    let q: u128 = (am * bm) / (d as u128);
    proof {
        assert(q == abs_int(ai * bi) / di);
        lemma_tdiv_abs(ai * bi, di);
        assert(neg ==> ai * bi <= 0) by (nonlinear_arith)
            requires
                neg == ((ai < 0) != (bi < 0)),
        ;
        assert(!neg ==> ai * bi >= 0) by (nonlinear_arith)
            requires
                neg == ((ai < 0) != (bi < 0)),
        ;
        assert(q == abs_int(tdiv(ai * bi, di)));
        assert(q <= i64::MAX as int);
    }
    if neg {
        proof {
            assert(tdiv(ai * bi, di) <= 0);
            assert(tdiv(ai * bi, di) == -(q as int));
        }
        -(q as i64)
    } else {
        proof {
            assert(tdiv(ai * bi, di) >= 0);
            assert(tdiv(ai * bi, di) == q as int);
        }
        q as i64
    }
}

/// Magnitude of an integer.
pub open spec fn abs_int(v: int) -> int {
    if v >= 0 {
        v
    } else {
        -v
    }
}

/// Truncated division commutes with taking magnitudes.
pub proof fn lemma_tdiv_abs(a: int, d: int)
    requires
        d > 0,
    ensures
        abs_int(tdiv(a, d)) == abs_int(a) / d,
        a >= 0 ==> tdiv(a, d) >= 0,
        a < 0 ==> tdiv(a, d) <= 0,
{
    if a >= 0 {
        assert(a / d >= 0) by (nonlinear_arith)
            requires
                a >= 0,
                d > 0,
        ;
    } else {
        assert((-a) / d >= 0) by (nonlinear_arith)
            requires
                -a >= 0,
                d > 0,
        ;
    }
}

/// `a / b` rounded to the nearest integer, ties away from zero.
pub fn round_div(a: i64, b: i64) -> (r: i64)
    requires
        b > 0,
        a > i64::MIN,
        -(i64::MAX as int) <= rdiv(a as int, b as int) <= i64::MAX as int,
    ensures
        r == rdiv(a as int, b as int),
{
    let ghost ai = a as int;
    let ghost bi = b as int;
    let neg: bool = a < 0;
    let am: u128 = (if a < 0 { -a } else { a }) as u128;
    let q: u128 = (2 * am + (b as u128)) / (2 * (b as u128));
    proof {
        assert(q == (2 * abs_int(ai) + bi) / (2 * bi));
        assert((2 * abs_int(ai) + bi) / (2 * bi) >= 0) by (nonlinear_arith)
            requires
                abs_int(ai) >= 0,
                bi > 0,
        ;
        assert(q == abs_int(rdiv(ai, bi)));
        assert(q <= i64::MAX as int);
    }
    if neg {
        -(q as i64)
    } else {
        q as i64
    }
}

/// Division by a positive number maps a bounded, nonnegative dividend into
/// `[0, hi]`.
pub proof fn lemma_div_range(a: int, b: int, hi: int)
    requires
        b > 0,
        0 <= a,
        a <= hi * b,
    ensures
        0 <= a / b <= hi,
        0 <= tdiv(a, b) <= hi,
{
    assert(0 <= a / b <= hi) by (nonlinear_arith)
        requires
            b > 0,
            0 <= a,
            a <= hi * b,
    ;
}

/// Truncated division of nonnegative dividends keeps their order.
pub proof fn lemma_div_monotone(a: int, b: int, d: int)
    requires
        0 <= a <= b,
        d > 0,
    ensures
        tdiv(a, d) <= tdiv(b, d),
{
    vstd::arithmetic::div_mod::lemma_div_is_ordered(a, b, d);
}

/// A magnitude bound on a truncated quotient, from a bound on the dividend.
pub proof fn lemma_tdiv_bound(a: int, d: int, m: int)
    requires
        d > 0,
        0 <= m,
        abs_int(a) <= m * d,
    ensures
        -m <= tdiv(a, d) <= m,
{
    lemma_tdiv_abs(a, d);
    lemma_div_range(abs_int(a), d, m);
}

/// A magnitude bound on `a * b / d`, from a bound on the product of the
/// magnitudes.
pub proof fn lemma_mul_div_bound(a: int, b: int, d: int, m: int)
    requires
        d > 0,
        0 <= m,
        abs_int(a) * abs_int(b) <= m * d,
    ensures
        -m <= tdiv(a * b, d) <= m,
{
    assert(abs_int(a * b) == abs_int(a) * abs_int(b)) by (nonlinear_arith);
    lemma_tdiv_bound(a * b, d, m);
}

/// Scaling by a ratio `dt / SCALE` of at most one never increases a
/// magnitude.
pub proof fn lemma_scale_shrinks(a: int, dt: int)
    requires
        0 <= dt <= SCALE as int,
    ensures
        abs_int(tdiv(a * dt, SCALE as int)) <= abs_int(a),
{
    let s = SCALE as int;
    assert(abs_int(a * dt) == abs_int(a) * dt && abs_int(a) * dt <= abs_int(a) * s)
        by (nonlinear_arith)
        requires
            0 <= dt <= s,
    ;
    lemma_tdiv_abs(a * dt, s);
    lemma_div_monotone(abs_int(a) * dt, abs_int(a) * s, s);
    assert(tdiv(abs_int(a) * s, s) == abs_int(a)) by (nonlinear_arith)
        requires
            s > 0,
            abs_int(a) >= 0,
    ;
}

/// Rounding to a coarser unit never increases a magnitude (for units of at
/// least one).
pub proof fn lemma_rdiv_shrinks(a: int, b: int)
    requires
        b >= 1,
    ensures
        abs_int(rdiv(a, b)) <= abs_int(a),
{
    if a >= 0 {
        assert((2 * a + b) / (2 * b) <= a && (2 * a + b) / (2 * b) >= 0) by (nonlinear_arith)
            requires
                a >= 0,
                b >= 1,
        ;
    } else {
        assert((2 * (-a) + b) / (2 * b) <= -a && (2 * (-a) + b) / (2 * b) >= 0)
            by (nonlinear_arith)
            requires
                -a >= 0,
                b >= 1,
        ;
    }
}

/// Rounding to the nearest multiple lands within half a divisor of the
/// dividend.
pub proof fn lemma_rdiv_near(a: int, b: int)
    requires
        b >= 1,
    ensures
        2 * abs_int(rdiv(a, b) * b - a) <= b,
{
    if a >= 0 {
        lemma_rdiv_near_nonneg(a, b);
    } else {
        lemma_rdiv_near_nonneg(-a, b);
        let q = (2 * (-a) + b) / (2 * b);
        assert(rdiv(a, b) * b - a == -(q * b - (-a))) by (nonlinear_arith)
            requires
                rdiv(a, b) == -q,
        ;
    }
}

proof fn lemma_rdiv_near_nonneg(a: int, b: int)
    requires
        a >= 0,
        b >= 1,
    ensures
        2 * abs_int(rdiv(a, b) * b - a) <= b,
{
    let q = (2 * a + b) / (2 * b);
    vstd::arithmetic::div_mod::lemma_fundamental_div_mod(2 * a + b, 2 * b);
    let r = (2 * a + b) % (2 * b);
    assert(0 <= r < 2 * b) by {
        vstd::arithmetic::div_mod::lemma_mod_bound(2 * a + b, 2 * b);
    }
    assert(2 * (q * b) == 2 * a + b - r) by (nonlinear_arith)
        requires
            2 * a + b == (2 * b) * q + r,
    ;
}

/// Rounding to the nearest multiple keeps the order of two dividends.
pub proof fn lemma_rdiv_monotone(a: int, b: int, d: int)
    requires
        a <= b,
        d >= 1,
    ensures
        rdiv(a, d) <= rdiv(b, d),
{
    if a >= 0 {
        lemma_div_monotone(2 * a + d, 2 * b + d, 2 * d);
    } else if b < 0 {
        lemma_div_monotone(2 * (-b) + d, 2 * (-a) + d, 2 * d);
    } else {
        assert((2 * (-a) + d) / (2 * d) >= 0) by (nonlinear_arith)
            requires
                -a >= 0,
                d >= 1,
        ;
        assert((2 * b + d) / (2 * d) >= 0) by (nonlinear_arith)
            requires
                b >= 0,
                d >= 1,
        ;
    }
}

/// Rounding an exact multiple returns its factor.
pub proof fn lemma_rdiv_exact(k: int, d: int)
    requires
        d >= 1,
        k >= 0,
    ensures
        rdiv(k * d, d) == k,
{
    assert((2 * (k * d) + d) == (2 * d) * k + d) by (nonlinear_arith);
    assert((2 * (k * d) + d) / (2 * d) == k) by {
        vstd::arithmetic::div_mod::lemma_fundamental_div_mod_converse(
            2 * (k * d) + d,
            2 * d,
            k,
            d,
        );
    }
}

/// Truncated division never increases a magnitude when the divisor is at
/// least one.
pub proof fn lemma_tdiv_shrinks(a: int, b: int)
    requires
        b >= 1,
    ensures
        abs_int(tdiv(a, b)) <= abs_int(a),
{
    if a >= 0 {
        assert(a / b <= a && a / b >= 0) by (nonlinear_arith)
            requires
                b >= 1,
                a >= 0,
        ;
    } else {
        assert((-a) / b <= -a && (-a) / b >= 0) by (nonlinear_arith)
            requires
                b >= 1,
                -a >= 0,
        ;
    }
}

} // verus!
