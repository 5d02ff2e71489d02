//! Verified decimal rendering of fixed-point values.
//!
//! Formatted labels (a slider's value text, a progress bar's percentage) are
//! built from scratch out of digit literals, so the exact character sequence
//! of every label is part of its contract.

use vstd::prelude::*;
use vstd::string::StrSliceExecFns;
use vstd::string::StringExecFns;

use crate::fixed::{abs_int, rdiv, round_div};

verus! {

pub open spec fn digit_char(d: int) -> char {
    if d == 0 {
        '0'
    } else if d == 1 {
        '1'
    } else if d == 2 {
        '2'
    } else if d == 3 {
        '3'
    } else if d == 4 {
        '4'
    } else if d == 5 {
        '5'
    } else if d == 6 {
        '6'
    } else if d == 7 {
        '7'
    } else if d == 8 {
        '8'
    } else {
        '9'
    }
}

/// The decimal digits of `n`, most significant first, no sign and no padding.
pub open spec fn dec_digits(n: nat) -> Seq<char>
    decreases n,
{
    if n < 10 {
        seq![digit_char(n as int)]
    } else {
        dec_digits(n / 10).push(digit_char((n % 10) as int))
    }
}

pub open spec fn pow10(w: nat) -> nat
    decreases w,
{
    if w == 0 {
        1
    } else {
        10 * pow10((w - 1) as nat)
    }
}

/// `n` rendered in exactly `w` digits, left-padded with zeros: the digits of
/// `n + 10^w` with the leading one cut off.
pub open spec fn padded_digits(n: nat, w: nat) -> Seq<char> {
    dec_digits(n + pow10(w)).subrange(1, w as int + 1)
}

fn digit_str(d: u64) -> (r: &'static str)
    requires
        d < 10,
    ensures
        r@ == seq![digit_char(d as int)],
{
    proof {
        reveal_strlit("0");
        reveal_strlit("1");
        reveal_strlit("2");
        reveal_strlit("3");
        reveal_strlit("4");
        reveal_strlit("5");
        reveal_strlit("6");
        reveal_strlit("7");
        reveal_strlit("8");
        reveal_strlit("9");
    }
    let r: &'static str = match d {
        0 => "0",
        1 => "1",
        2 => "2",
        3 => "3",
        4 => "4",
        5 => "5",
        6 => "6",
        7 => "7",
        8 => "8",
        _ => "9",
    };
    proof {
        assert(r@ =~= seq![digit_char(d as int)]);
    }
    r
}

/// The decimal rendering of a machine word.
pub fn u64_to_string(n: u64) -> (r: String)
    ensures
        r@ == dec_digits(n as nat),
    decreases n,
{
    if n < 10 {
        digit_str(n).to_owned()
    } else {
        let mut s = u64_to_string(n / 10);
        s.append(digit_str(n % 10));
        proof {
            assert(s@ =~= dec_digits(n as nat));
        }
        s
    }
}

fn pow10_u64(w: u32) -> (r: u64)
    requires
        w <= 7,
    ensures
        r == pow10(w as nat),
        1 <= r <= 10_000_000,
{
    proof {
        reveal_with_fuel(pow10, 9);
    }
    match w {
        0 => 1,
        1 => 10,
        2 => 100,
        3 => 1_000,
        4 => 10_000,
        5 => 100_000,
        6 => 1_000_000,
        _ => 10_000_000,
    }
}

/// A number with `w + 1` digits renders to `w + 1` characters.
proof fn lemma_dec_digits_len(n: nat, w: nat)
    requires
        pow10(w) <= n < pow10(w + 1),
    ensures
        dec_digits(n).len() == w + 1,
    decreases w,
{
    if w == 0 {
        assert(pow10(1) == 10 * pow10(0));
    } else {
        assert(pow10(w) == 10 * pow10((w - 1) as nat));
        assert(pow10(w + 1) == 10 * pow10(w));
        assert(n >= 10);
        assert(pow10((w - 1) as nat) <= n / 10 < pow10(w)) by (nonlinear_arith)
            requires
                10 * pow10((w - 1) as nat) <= n < 10 * pow10(w),
        ;
        lemma_dec_digits_len(n / 10, (w - 1) as nat);
    }
}

/// `n` rendered in exactly `w` digits, zeros on the left.
fn padded_u64(n: u64, w: u32) -> (r: String)
    requires
        1 <= w <= 6,
        n < pow10(w as nat),
    ensures
        r@ == padded_digits(n as nat, w as nat),
        r@.len() == w,
{
    let p = pow10_u64(w);
    let s = u64_to_string(n + p);
    proof {
        assert(pow10((w + 1) as nat) == 10 * pow10(w as nat));
        lemma_dec_digits_len((n + p) as nat, w as nat);
    }
    let sub = s.as_str().substring_char(1, w as usize + 1);
    sub.to_owned()
}

/// `v` (fixed-point, six decimal places) rendered with exactly `decimals`
/// digits after the point, rounded to the nearest representable value with
/// ties away from zero; no point is printed when `decimals` is zero.
pub open spec fn spec_format_fixed(v: int, decimals: int) -> Seq<char> {
    let unit = pow10((6 - decimals) as nat) as int;
    let r = rdiv(v, unit);
    let m = abs_int(r) as nat;
    let sign: Seq<char> = if r < 0 {
        seq!['-']
    } else {
        Seq::empty()
    };
    if decimals == 0 {
        sign + dec_digits(m)
    } else {
        let p = pow10(decimals as nat);
        sign + dec_digits(m / p) + seq!['.'] + padded_digits(m % p, decimals as nat)
    }
}

/// Renders a fixed-point value with the asked-for number of decimals.
pub fn format_fixed(v: i64, decimals: u32) -> (r: String)
    requires
        decimals <= 6,
        v > i64::MIN,
    ensures
        r@ == spec_format_fixed(v as int, decimals as int),
{
    let unit: u64 = pow10_u64(6 - decimals);
    proof {
        crate::fixed::lemma_rdiv_shrinks(v as int, unit as int);
    }
    let rv: i64 = round_div(v, unit as i64);
    let neg: bool = rv < 0;
    let m: u64 = (if rv < 0 {
        -rv
    } else {
        rv
    }) as u64;
    let mut out = String::new();
    if neg {
        proof {
            reveal_strlit("-");
        }
        out.append("-");
        proof {
            assert(out@ =~= seq!['-']);
        }
    }
    if decimals == 0 {
        out.append(u64_to_string(m).as_str());
        proof {
            assert(out@ =~= spec_format_fixed(v as int, decimals as int));
        }
        out
    } else {
        let p = pow10_u64(decimals);
        let ip: u64 = m / p;
        let fp: u64 = m % p;
        out.append(u64_to_string(ip).as_str());
        proof {
            reveal_strlit(".");
        }
        out.append(".");
        out.append(padded_u64(fp, decimals).as_str());
        proof {
            assert(out@ =~= spec_format_fixed(v as int, decimals as int));
        }
        out
    }
}

} // verus!
