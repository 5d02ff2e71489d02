//! Easing curves for the time-eased animation model.
//!
//! Every curve is a pure function from an elapsed-time ratio `t` in
//! `[0, SCALE]` to an output in `[0, SCALE]`.  The transcendental pieces of
//! the elastic curve (a decaying power of two and a sine) are rational
//! fixed-point approximations, so each curve is a deterministic integer
//! formula that the sampler computes exactly.

use vstd::prelude::*;

use crate::fixed::{clamp_spec, clamp64, mul_div, tdiv, SCALE};

verus! {

#[derive(Debug, Clone, Copy, PartialEq, Eq)]
pub enum EasingFunction {
    Linear,
    EaseIn,
    EaseOut,
    EaseInOut,
    Bounce,
    Elastic,
}

/// Fixed-point pi.
pub const PI_FX: i64 = 3_141_593;

/// Quadratic coefficients for `2^(-x)` on `[0, 1]`: the curve through
/// (0, 1), (1, 1/2) with matched endpoints.
pub const POW2_LIN: i64 = 656_500;

pub const POW2_QUAD: i64 = 156_500;

pub open spec fn ease_in_spec(t: int) -> int {
    tdiv(t * t, SCALE as int)
}

pub open spec fn ease_out_spec(t: int) -> int {
    SCALE - tdiv((SCALE - t) * (SCALE - t), SCALE as int)
}

pub open spec fn ease_in_out_spec(t: int) -> int {
    if t < SCALE / 2 {
        tdiv(2 * t * t, SCALE as int)
    } else {
        SCALE - tdiv((2 * SCALE - 2 * t) * (2 * SCALE - 2 * t), 2 * SCALE as int)
    }
}

/// One parabolic arch of the bounce curve: `7.5625 * (t - off)^2 + c`.
pub open spec fn bounce_arch_spec(t: int, off: int, c: int) -> int {
    tdiv(121 * (t - off) * (t - off), 16 * SCALE as int) + c
}

pub open spec fn bounce_spec(t: int) -> int {
    if 11 * t < 4 * SCALE {
        bounce_arch_spec(t, 0, 0)
    } else if 11 * t < 8 * SCALE {
        bounce_arch_spec(t, 6 * (SCALE as int) / 11, 750_000)
    } else if 22 * t < 20 * SCALE {
        bounce_arch_spec(t, 9 * (SCALE as int) / 11, 937_500)
    } else {
        bounce_arch_spec(t, 21 * (SCALE as int) / 22, 984_375)
    }
}

/// Approximate `2^(-x)` for `x` in `[0, 1]`, both fixed-point.
pub open spec fn pow2_frac_spec(f: int) -> int {
    SCALE - tdiv(POW2_LIN * f, SCALE as int) + tdiv(POW2_QUAD * tdiv(f * f, SCALE as int), SCALE as int)
}

/// Approximate `sin(x)` for `x` in `[0, pi]` by the rational curve
/// `16 x (pi - x) / (5 pi^2 - 4 x (pi - x))`, all fixed-point.
pub open spec fn sin_half_spec(x: int) -> int {
    tdiv(16 * x * (PI_FX - x) * SCALE, 5 * (PI_FX as int) * (PI_FX as int) - 4 * x * (PI_FX - x))
}

/// Approximate `sin(x)` for `x` in `[0, 2 pi)`.
pub open spec fn sin_full_spec(x: int) -> int {
    if x <= PI_FX {
        sin_half_spec(x)
    } else {
        -sin_half_spec(x - PI_FX)
    }
}

/// The decaying-oscillation elastic curve for `t` strictly inside `(0, SCALE)`:
/// `-2^(10 t - 10) * sin((10 t - 10.75) * 2 pi / 3)`, clamped non-negative.
pub open spec fn elastic_inner_spec(t: int) -> int {
    let e = 10 * (SCALE - t);
    let k = e / (SCALE as int);
    let f = e % (SCALE as int);
    let p = tdiv(pow2_frac_spec(f), pow2_int_spec(k as nat));
    let phase = tdiv((10 * SCALE - 10 * t + 750_000) * 2_094_395, SCALE as int);
    let x = phase % (2 * PI_FX as int);
    clamp_spec(tdiv(p * sin_full_spec(x), SCALE as int), 0, SCALE as int)
}

pub open spec fn pow2_int_spec(k: nat) -> int
    decreases k,
{
    if k == 0 {
        1
    } else {
        2 * pow2_int_spec((k - 1) as nat)
    }
}

pub open spec fn elastic_spec(t: int) -> int {
    if t == 0 || t == SCALE {
        t
    } else {
        elastic_inner_spec(t)
    }
}

/// What `sample` returns: the chosen curve of the clamped ratio, forced into
/// `[0, SCALE]`.
pub open spec fn ease_spec(f: EasingFunction, t0: int) -> int {
    let t = clamp_spec(t0, 0, SCALE as int);
    let raw = match f {
        EasingFunction::Linear => t,
        EasingFunction::EaseIn => ease_in_spec(t),
        EasingFunction::EaseOut => ease_out_spec(t),
        EasingFunction::EaseInOut => ease_in_out_spec(t),
        EasingFunction::Bounce => bounce_spec(t),
        EasingFunction::Elastic => elastic_spec(t),
    };
    clamp_spec(raw, 0, SCALE as int)
}

impl EasingFunction {
    /// Evaluates the curve at elapsed-time ratio `t`.
    pub fn sample(&self, t: i64) -> (r: i64)
        ensures
            r == ease_spec(*self, t as int),
            0 <= r <= SCALE,
    {
        let t = clamp64(t, 0, SCALE);
        let raw: i64 = match self {
            EasingFunction::Linear => t,
            EasingFunction::EaseIn => sq_ratio(t),
            EasingFunction::EaseOut => SCALE - sq_ratio(SCALE - t),
            EasingFunction::EaseInOut => {
                if t < SCALE / 2 {
                    proof {
                        assert(0 <= 2 * t * t && 2 * t * t <= SCALE as int * (2 * SCALE as int))
                            by (nonlinear_arith)
                            requires
                                0 <= t as int <= SCALE as int,
                        ;
                        crate::fixed::lemma_div_range(2 * t * t, SCALE as int, 2 * SCALE as int);
                    }
                    mul_div(2 * t, t, SCALE)
                } else {
                    let u = 2 * SCALE - 2 * t;
                    proof {
                        assert(0 <= u * u && u * u <= SCALE as int * (2 * SCALE as int))
                            by (nonlinear_arith)
                            requires
                                0 <= u as int <= SCALE as int,
                        ;
                        crate::fixed::lemma_div_range(u * u, 2 * SCALE as int, SCALE as int);
                    }
                    SCALE - mul_div(u, u, 2 * SCALE)
                }
            },
            EasingFunction::Bounce => {
                if 11 * t < 4 * SCALE {
                    bounce_arch(t, 0, 0)
                } else if 11 * t < 8 * SCALE {
                    bounce_arch(t, 6 * SCALE / 11, 750_000)
                } else if 22 * t < 20 * SCALE {
                    bounce_arch(t, 9 * SCALE / 11, 937_500)
                } else {
                    bounce_arch(t, 21 * SCALE / 22, 984_375)
                }
            },
            EasingFunction::Elastic => {
                if t == 0 || t == SCALE {
                    t
                } else {
                    elastic_inner(t)
                }
            },
        };
        clamp64(raw, 0, SCALE)
    }
}

/// `a * a / SCALE` for `a` in `[0, SCALE]`.
fn sq_ratio(a: i64) -> (r: i64)
    requires
        0 <= a <= SCALE,
    ensures
        r == tdiv(a as int * a as int, SCALE as int),
        0 <= r <= SCALE,
{
    proof {
        assert(0 <= a as int * a as int && a as int * a as int <= SCALE as int * SCALE as int)
            by (nonlinear_arith)
            requires
                0 <= a as int <= SCALE as int,
        ;
        crate::fixed::lemma_div_range(a as int * a as int, SCALE as int, SCALE as int);
    }
    mul_div(a, a, SCALE)
}

fn bounce_arch(t: i64, off: i64, c: i64) -> (r: i64)
    requires
        0 <= t <= SCALE,
        0 <= off <= SCALE,
        0 <= c <= SCALE,
    ensures
        r == bounce_arch_spec(t as int, off as int, c as int),
{
    let u = t - off;
    proof {
        assert(0 <= 121 * u * u && 121 * u * u <= 8 * SCALE as int * (16 * SCALE as int))
            by (nonlinear_arith)
            requires
                -(SCALE as int) <= u as int <= SCALE as int,
        ;
        crate::fixed::lemma_div_range(121 * u * u, 16 * SCALE as int, 8 * SCALE as int);
    }
    mul_div(121 * u, u, 16 * SCALE) + c
}

fn pow2_int(k: u32) -> (r: i64)
    requires
        k <= 10,
    ensures
        r == pow2_int_spec(k as nat),
        1 <= r <= 1024,
{
    proof {
        reveal_with_fuel(pow2_int_spec, 12);
    }
    match k {
        0 => 1,
        1 => 2,
        2 => 4,
        3 => 8,
        4 => 16,
        5 => 32,
        6 => 64,
        7 => 128,
        8 => 256,
        9 => 512,
        _ => 1024,
    }
}

/// Approximate `sin` on `[0, pi]`; output stays within `[0, SCALE]`.
fn sin_half(x: i64) -> (r: i64)
    requires
        0 <= x <= PI_FX,
    ensures
        r == sin_half_spec(x as int),
        0 <= r <= SCALE,
{
    proof {
        let xi = x as int;
        let p = PI_FX as int;
        assert(0 <= xi * (p - xi) && 4 * (xi * (p - xi)) <= p * p) by (nonlinear_arith)
            requires
                0 <= xi <= p,
        ;
    }
    let arch: i64 = x * (PI_FX - x);
    let den: i64 = 5 * PI_FX * PI_FX - 4 * arch;
    proof {
        let xi = x as int;
        let p = PI_FX as int;
        let s = SCALE as int;
        assert(arch as int == xi * (p - xi));
        assert(0 <= arch as int && 4 * (arch as int) <= p * p);
        assert(den as int == 5 * p * p - 4 * (arch as int));
        assert(16 * (arch as int) <= den as int);
        assert(16 * (arch as int) * s <= s * (den as int) && 0 <= 16 * (arch as int) * s)
            by (nonlinear_arith)
            requires
                0 <= arch as int,
                16 * (arch as int) <= den as int,
                s > 0,
        ;
        crate::fixed::lemma_div_range(16 * (arch as int) * s, den as int, s);
        assert((16 * (arch as int)) * s == 16 * xi * (p - xi) * s) by (nonlinear_arith)
            requires
                arch as int == xi * (p - xi),
        ;
        assert(4 * xi * (p - xi) == 4 * (xi * (p - xi))) by (nonlinear_arith);
        assert(den as int == 5 * p * p - 4 * xi * (p - xi));
    }
    mul_div(16 * arch, SCALE, den)
}

/// Approximate `sin` on `[0, 2 pi)`; output stays within `[-SCALE, SCALE]`.
fn sin_full(x: i64) -> (r: i64)
    requires
        0 <= x < 2 * PI_FX,
    ensures
        r == sin_full_spec(x as int),
        -SCALE <= r <= SCALE,
{
    if x <= PI_FX {
        sin_half(x)
    } else {
        -sin_half(x - PI_FX)
    }
}

/// The elastic curve away from its endpoints.
fn elastic_inner(t: i64) -> (r: i64)
    requires
        0 < t < SCALE,
    ensures
        r == elastic_inner_spec(t as int),
        0 <= r <= SCALE,
{
    let e: i64 = 10 * (SCALE - t);
    let k: i64 = e / SCALE;
    let f: i64 = e % SCALE;
    proof {
        assert(e as int / (SCALE as int) <= 10 && e as int / (SCALE as int) >= 0)
            by (nonlinear_arith)
            requires
                0 < e as int <= 10 * SCALE as int,
        ;
    }
    let frac = pow2_frac(f);
    let pk = pow2_int(k as u32);
    proof {
        crate::fixed::lemma_div_range(frac as int, pk as int, SCALE as int);
    }
    let p: i64 = frac / pk;
    let phase: i64 = mul_div(10 * SCALE - 10 * t + 750_000, 2_094_395, SCALE);
    proof {
        crate::fixed::lemma_div_range(
            (10 * SCALE as int - 10 * t + 750_000) * 2_094_395,
            SCALE as int,
            24_000_000,
        );
        assert((10 * SCALE as int - 10 * t + 750_000) * 2_094_395 <= 24_000_000 * SCALE as int)
            by (nonlinear_arith)
            requires
                0 < t < SCALE as int,
        ;
        assert((10 * SCALE as int - 10 * t + 750_000) * 2_094_395 >= 0) by (nonlinear_arith)
            requires
                0 < t < SCALE as int,
        ;
    }
    let x: i64 = phase % (2 * PI_FX);
    let s = sin_full(x);
    proof {
        assert(p * s <= SCALE as int * SCALE as int && p * s >= -(SCALE as int) * SCALE as int)
            by (nonlinear_arith)
            requires
                0 <= p <= SCALE as int,
                -(SCALE as int) <= s <= SCALE as int,
        ;
        crate::fixed::lemma_tdiv_shrinks(p as int * s as int, SCALE as int);
    }
    clamp64(mul_div(p, s, SCALE), 0, SCALE)
}

/// Approximate `2^(-x)` for fixed-point `x` in `[0, 1)`.
fn pow2_frac(f: i64) -> (r: i64)
    requires
        0 <= f < SCALE,
    ensures
        r == pow2_frac_spec(f as int),
        0 <= r <= SCALE,
{
    proof {
        let fi = f as int;
        assert(POW2_LIN as int * fi <= POW2_LIN as int * SCALE as int && POW2_LIN as int * fi >= 0)
            by (nonlinear_arith)
            requires
                0 <= fi <= SCALE as int,
        ;
        crate::fixed::lemma_div_range(POW2_LIN as int * fi, SCALE as int, POW2_LIN as int);
        assert(fi * fi <= SCALE as int * SCALE as int && fi * fi >= 0) by (nonlinear_arith)
            requires
                0 <= fi <= SCALE as int,
        ;
        crate::fixed::lemma_div_range(fi * fi, SCALE as int, SCALE as int);
        let f2 = tdiv(fi * fi, SCALE as int);
        assert(POW2_QUAD as int * f2 <= POW2_QUAD as int * SCALE as int && POW2_QUAD as int * f2
            >= 0) by (nonlinear_arith)
            requires
                0 <= f2 <= SCALE as int,
        ;
        crate::fixed::lemma_div_range(POW2_QUAD as int * f2, SCALE as int, POW2_QUAD as int);
        lemma_pow2_frac_bounds(fi);
    }
    SCALE - mul_div(POW2_LIN, f, SCALE) + mul_div(POW2_QUAD, mul_div(f, f, SCALE), SCALE)
}

proof fn lemma_pow2_frac_bounds(f: int)
    requires
        0 <= f < SCALE as int,
    ensures
        0 <= pow2_frac_spec(f) <= SCALE as int,
{
    let s = SCALE as int;
    let lin = tdiv(POW2_LIN as int * f, s);
    let f2 = tdiv(f * f, s);
    let quad = tdiv(POW2_QUAD as int * f2, s);
    assert(0 <= POW2_LIN as int * f && POW2_LIN as int * f <= POW2_LIN as int * s)
        by (nonlinear_arith)
        requires
            0 <= f <= s,
    ;
    crate::fixed::lemma_div_range(POW2_LIN as int * f, s, POW2_LIN as int);
    assert(0 <= f * f && f * f <= s * s) by (nonlinear_arith)
        requires
            0 <= f <= s,
    ;
    crate::fixed::lemma_div_range(f * f, s, s);
    assert(0 <= POW2_QUAD as int * f2 && POW2_QUAD as int * f2 <= POW2_QUAD as int * s)
        by (nonlinear_arith)
        requires
            0 <= f2 <= s,
    ;
    crate::fixed::lemma_div_range(POW2_QUAD as int * f2, s, POW2_QUAD as int);
    // lower bound: the linear term never exceeds SCALE, the quadratic term is
    // nonnegative, so the sum stays at or above zero.
    assert(lin <= POW2_LIN as int);
    assert(quad >= 0);
    // the quadratic correction is at most POW2_QUAD while the linear term at
    // f where quad is large is also large; a coarse bound suffices:
    // pow2_frac = s - lin + quad <= s + POW2_QUAD, and we must show <= s,
    // i.e. quad <= lin.  quad <= POW2_QUAD * f2 / s and lin >= POW2_LIN*f/s - 1.
    assert(quad <= lin) by {
        assert(POW2_QUAD as int * f2 <= POW2_LIN as int * f) by {
            assert(f2 <= f) by {
                assert(f * f <= f * s) by (nonlinear_arith)
                    requires
                        0 <= f <= s,
                ;
                assert(tdiv(f * f, s) <= tdiv(f * s, s)) by {
                    crate::fixed::lemma_div_monotone(f * f, f * s, s);
                }
                assert(tdiv(f * s, s) == f) by (nonlinear_arith)
                    requires
                        s > 0,
                ;
            }
            assert(POW2_QUAD as int * f2 <= POW2_QUAD as int * f) by (nonlinear_arith)
                requires
                    f2 <= f,
                    0 <= f2,
            ;
            assert(POW2_QUAD as int * f <= POW2_LIN as int * f) by (nonlinear_arith)
                requires
                    0 <= f,
            ;
        }
        crate::fixed::lemma_div_monotone(POW2_QUAD as int * f2, POW2_LIN as int * f, s);
    }
}

/// The endpoint laws of the easing family: the linear and ease-out curves fix
/// 0 and 1, and the bounce and elastic curves never go negative.
pub proof fn lemma_easing_endpoints()
    ensures
        ease_spec(EasingFunction::Linear, 0) == 0,
        ease_spec(EasingFunction::Linear, SCALE as int) == SCALE as int,
        ease_spec(EasingFunction::EaseOut, 0) == 0,
        ease_spec(EasingFunction::EaseOut, SCALE as int) == SCALE as int,
        forall|t: int| ease_spec(EasingFunction::Bounce, t) >= 0,
        forall|t: int| ease_spec(EasingFunction::Elastic, t) >= 0,
{
    let s = SCALE as int;
    assert(tdiv(s * s, s) == s) by (nonlinear_arith)
        requires
            s > 0,
    ;
    assert(ease_spec(EasingFunction::EaseOut, 0) == clamp_spec(s - tdiv(s * s, s), 0, s));
}

} // verus!
