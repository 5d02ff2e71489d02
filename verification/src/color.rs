//! Colours as fixed-point channel quadruples, with the blending and the
//! contrast arithmetic the visual passes need.

use vstd::prelude::*;

use crate::fixed::{mul_div, tdiv, SCALE};

verus! {

/// A colour with red, green, blue and alpha channels, each fixed-point in
/// `[0, SCALE]`.
#[derive(Debug, Clone, Copy, PartialEq, Eq)]
pub struct Color {
    pub red: i64,
    pub green: i64,
    pub blue: i64,
    pub alpha: i64,
}

/// Where one channel sits after blending a share `t` of `b` into `a`.
pub open spec fn mix_channel_spec(a: int, b: int, t: int) -> int {
    a + tdiv((b - a) * t, SCALE as int)
}

impl Color {
    pub open spec fn wf(self) -> bool {
        &&& 0 <= self.red <= SCALE
        &&& 0 <= self.green <= SCALE
        &&& 0 <= self.blue <= SCALE
        &&& 0 <= self.alpha <= SCALE
    }

    /// An opaque colour from its three channels.
    pub fn rgb(red: i64, green: i64, blue: i64) -> (r: Color)
        requires
            0 <= red <= SCALE,
            0 <= green <= SCALE,
            0 <= blue <= SCALE,
        ensures
            r == (Color { red, green, blue, alpha: SCALE as i64 }),
            r.wf(),
    {
        Color { red, green, blue, alpha: SCALE }
    }

    pub open spec fn mix_spec(self, other: Color, t: int) -> Color {
        Color {
            red: mix_channel_spec(self.red as int, other.red as int, t) as i64,
            green: mix_channel_spec(self.green as int, other.green as int, t) as i64,
            blue: mix_channel_spec(self.blue as int, other.blue as int, t) as i64,
            alpha: mix_channel_spec(self.alpha as int, other.alpha as int, t) as i64,
        }
    }

    /// Blends a share `t` of `other` into `self`, channel by channel: `t` of
    /// zero keeps `self`, `t` of `SCALE` gives exactly `other`.
    pub fn mix(&self, other: &Color, t: i64) -> (r: Color)
        requires
            self.wf(),
            other.wf(),
            0 <= t <= SCALE,
        ensures
            r == self.mix_spec(*other, t as int),
            r.wf(),
            t == 0 ==> r == *self,
            t == SCALE ==> r == *other,
    {
        Color {
            red: mix_channel(self.red, other.red, t),
            green: mix_channel(self.green, other.green, t),
            blue: mix_channel(self.blue, other.blue, t),
            alpha: mix_channel(self.alpha, other.alpha, t),
        }
    }

    /// The same colour with its alpha channel replaced.
    pub fn with_alpha(&self, alpha: i64) -> (r: Color)
        requires
            0 <= alpha <= SCALE,
        ensures
            r == (Color { alpha, ..*self }),
    {
        Color { red: self.red, green: self.green, blue: self.blue, alpha }
    }

    /// Relative luminance: `0.2126 R + 0.7152 G + 0.0722 B`, fixed-point.
    pub open spec fn luminance_spec(self) -> int {
        tdiv(2126 * self.red + 7152 * self.green + 722 * self.blue, 10_000)
    }

    pub fn luminance(&self) -> (r: i64)
        requires
            self.wf(),
        ensures
            r == self.luminance_spec(),
            0 <= r <= SCALE,
    {
        let num: i64 = 2126 * self.red + 7152 * self.green + 722 * self.blue;
        proof {
            crate::fixed::lemma_div_range(num as int, 10_000, SCALE as int);
        }
        num / 10_000
    }
}

fn mix_channel(a: i64, b: i64, t: i64) -> (r: i64)
    requires
        0 <= a <= SCALE,
        0 <= b <= SCALE,
        0 <= t <= SCALE,
    ensures
        r == mix_channel_spec(a as int, b as int, t as int),
        0 <= r <= SCALE,
        t == 0 ==> r == a,
        t == SCALE ==> r == b,
{
    let d: i64 = b - a;
    proof {
        let s = SCALE as int;
        crate::fixed::lemma_tdiv_abs(d as int * t as int, s);
        assert(crate::fixed::abs_int(d as int * t as int) <= s * s) by (nonlinear_arith)
            requires
                -s <= d as int <= s,
                0 <= t as int <= s,
        ;
        crate::fixed::lemma_div_monotone(crate::fixed::abs_int(d as int * t as int), s * s, s);
        assert(tdiv(s * s, s) == s) by (nonlinear_arith)
            requires
                s > 0,
        ;
        // staying inside [0, SCALE]: the step toward b never leaves the band
        // between a and b.
        if d >= 0 {
            assert(d as int * t as int <= d as int * s && 0 <= d as int * t as int)
                by (nonlinear_arith)
                requires
                    0 <= d as int,
                    0 <= t as int <= s,
            ;
            crate::fixed::lemma_div_monotone(d as int * t as int, d as int * s, s);
            assert(tdiv(d as int * s, s) == d as int) by (nonlinear_arith)
                requires
                    s > 0,
            ;
        } else {
            assert(d as int * s <= d as int * t as int && d as int * t as int <= 0)
                by (nonlinear_arith)
                requires
                    (d as int) < 0,
                    0 <= t as int <= s,
            ;
            assert(tdiv(d as int * s, s) == d as int) by (nonlinear_arith)
                requires
                    s > 0,
            ;
            lemma_tdiv_monotone_neg(d as int * s, d as int * t as int, s);
        }
        if t == SCALE {
            assert(tdiv(d as int * s, s) == d as int) by (nonlinear_arith)
                requires
                    s > 0,
            ;
        }
        if t == 0 {
            assert(tdiv(0, s) == 0) by (nonlinear_arith)
                requires
                    s > 0,
            ;
        }
    }
    a + mul_div(d, t, SCALE)
}

/// Truncated division keeps the order of two dividends that straddle or share
/// a sign, for a positive divisor.
proof fn lemma_tdiv_monotone_neg(a: int, b: int, d: int)
    requires
        a <= b <= 0,
        d > 0,
    ensures
        tdiv(a, d) <= tdiv(b, d),
{
    crate::fixed::lemma_div_monotone(-b, -a, d);
}

/// Blending is exact at its ends: a share of zero keeps the first colour and
/// a share of `SCALE` gives exactly the second.
pub proof fn lemma_mix_ends(a: Color, b: Color)
    requires
        a.wf(),
        b.wf(),
    ensures
        a.mix_spec(b, 0) == a,
        a.mix_spec(b, SCALE as int) == b,
{
    let s = SCALE as int;
    assert forall|x: int, y: int| -s <= y - x <= s implies mix_channel_spec(x, y, 0) == x
        && mix_channel_spec(x, y, s) == y by {
        assert(tdiv((y - x) * 0, s) == 0) by (nonlinear_arith)
            requires
                s > 0,
        ;
        assert(tdiv((y - x) * s, s) == y - x) by (nonlinear_arith)
            requires
                s > 0,
        ;
    }
}

/// Whether the contrast ratio `(hi + 0.05) / (lo + 0.05)` of two luminances
/// reaches the 4.5 readability floor.
pub open spec fn contrast_ok_spec(la: int, lb: int) -> bool {
    let hi = if la >= lb {
        la
    } else {
        lb
    };
    let lo = if la >= lb {
        lb
    } else {
        la
    };
    2 * (hi + 50_000) >= 9 * (lo + 50_000)
}

/// Checks the 4.5:1 contrast floor between a text colour and a backing
/// colour, on their relative luminances.
pub fn contrast_ok(text: &Color, backing: &Color) -> (r: bool)
    requires
        text.wf(),
        backing.wf(),
    ensures
        r == contrast_ok_spec(text.luminance_spec(), backing.luminance_spec()),
{
    let la = text.luminance();
    let lb = backing.luminance();
    let hi = if la >= lb {
        la
    } else {
        lb
    };
    let lo = if la >= lb {
        lb
    } else {
        la
    };
    2 * (hi + 50_000) >= 9 * (lo + 50_000)
}

} // verus!
