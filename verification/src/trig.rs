//! Fixed-point circular functions: sine, cosine, arctangent and arccosine.
//!
//! Each function is an exact integer formula — a truncated series or a
//! rational approximation folded into the principal range — and its contract
//! states that formula verbatim, so callers reason about one definite value.
//! Results that stand for a sine or cosine are saturated into `[-1, 1]`.

use vstd::prelude::*;
use crate::fixed::{abs64, isqrt, isqrt_s, lemma_mul_bound, FX_HALF_PI, FX_ONE, FX_PI,
    FX_QUARTER_PI, FX_TWO_PI};
use crate::math::{clamp, clamp_s};
use vstd::arithmetic::div_mod::{lemma_fundamental_div_mod, lemma_fundamental_div_mod_converse};

verus! {

/// Coefficient of the arctangent approximation, `0.273` in raw units.
pub const ATAN_COEF: i64 = 273000;

/// Truncated sine series on `[0, pi/2]`:
/// `t - t^3/6 + t^5/120 - t^7/5040`, every step rounded toward zero.
pub open spec fn sin_poly_s(t: int) -> int {
    let t2 = (t * t) / (FX_ONE as int);
    let t3 = (t2 * t) / (FX_ONE as int);
    let t5 = (t3 * t2) / (FX_ONE as int);
    let t7 = (t5 * t2) / (FX_ONE as int);
    t - t3 / 6 + t5 / 120 - t7 / 5040
}

/// Sine on `[0, pi]`, folded onto the series' quarter wave.
pub open spec fn sin_half_s(h: int) -> int {
    if h > FX_HALF_PI as int {
        sin_poly_s(FX_PI as int - h)
    } else {
        sin_poly_s(h)
    }
}

/// Sine on `[0, 2 pi)`, odd across `pi`.
pub open spec fn sin_reduced_s(m: int) -> int {
    if m < FX_PI as int {
        sin_half_s(m)
    } else {
        -sin_half_s(m - FX_PI as int)
    }
}

/// Sine of any angle: the argument reduced modulo `2 pi`, the folded series,
/// and a final saturation into `[-1, 1]`.
pub open spec fn sin_s(x: int) -> int {
    clamp_s(sin_reduced_s(x % (FX_TWO_PI as int)), -FX_ONE as int, FX_ONE as int)
}

/// Cosine as the sine shifted a quarter turn.
pub open spec fn cos_s(x: int) -> int {
    sin_s(x % (FX_TWO_PI as int) + FX_HALF_PI as int)
}

/// The argument reduced into `[0, 2 pi)`.
pub fn reduce_angle(x: i64) -> (r: i64)
    ensures
        r == (x as int) % (FX_TWO_PI as int),
        0 <= r < FX_TWO_PI,
{
    if x >= 0 {
        (x as u64 % (FX_TWO_PI as u64)) as i64
    } else {
        let a: u64 = abs64(x);
        let m: u64 = a % (FX_TWO_PI as u64);
        proof {
            lemma_fundamental_div_mod(a as int, FX_TWO_PI as int);
            let q = (a as int) / (FX_TWO_PI as int);
            if m == 0 {
                lemma_fundamental_div_mod_converse(x as int, FX_TWO_PI as int, -q, 0);
            } else {
                lemma_fundamental_div_mod_converse(
                    x as int,
                    FX_TWO_PI as int,
                    -q - 1,
                    FX_TWO_PI as int - m as int,
                );
            }
        }
        if m == 0 {
            0
        } else {
            FX_TWO_PI - (m as i64)
        }
    }
}

/// The truncated series on the quarter wave, in executable form.
fn sin_poly(t: i64) -> (r: i64)
    requires
        0 <= t <= 1600000,
    ensures
        r == sin_poly_s(t as int),
        -2000000 <= r <= 2000000,
{
    let tu: u64 = t as u64;
    proof {
        lemma_mul_bound(t as int, t as int, 1600000, 1600000);
    }
    let t2: u64 = (tu * tu) / (FX_ONE as u64);
    proof {
        vstd::arithmetic::div_mod::lemma_div_is_ordered(
            (t as int) * (t as int),
            2560000000000,
            FX_ONE as int,
        );
        lemma_mul_bound(t2 as int, t as int, 2560000, 1600000);
    }
    let t3: u64 = (t2 * tu) / (FX_ONE as u64);
    proof {
        vstd::arithmetic::div_mod::lemma_div_is_ordered(
            (t2 as int) * (t as int),
            2560000int * 1600000int,
            FX_ONE as int,
        );
        lemma_mul_bound(t3 as int, t2 as int, 4096000, 2560000);
    }
    let t5: u64 = (t3 * t2) / (FX_ONE as u64);
    proof {
        vstd::arithmetic::div_mod::lemma_div_is_ordered(
            (t3 as int) * (t2 as int),
            4096000int * 2560000int,
            FX_ONE as int,
        );
        lemma_mul_bound(t5 as int, t2 as int, 10485760, 2560000);
    }
    let t7: u64 = (t5 * t2) / (FX_ONE as u64);
    proof {
        vstd::arithmetic::div_mod::lemma_div_is_ordered(
            (t5 as int) * (t2 as int),
            10485760int * 2560000int,
            FX_ONE as int,
        );
    }
    let r: i64 = (t as i64) - ((t3 / 6) as i64) + ((t5 / 120) as i64) - ((t7 / 5040) as i64);
    r
}

/// Sine, saturated into `[-1, 1]`.
pub fn sin_fx(x: i64) -> (r: i64)
    ensures
        r == sin_s(x as int),
        -FX_ONE <= r <= FX_ONE,
{
    let m: i64 = reduce_angle(x);
    let raw: i64 = if m < FX_PI {
        if m > FX_HALF_PI {
            sin_poly(FX_PI - m)
        } else {
            sin_poly(m)
        }
    } else {
        let h: i64 = m - FX_PI;
        let p: i64 = if h > FX_HALF_PI {
            sin_poly(FX_PI - h)
        } else {
            sin_poly(h)
        };
        -p
    };
    clamp(raw, -FX_ONE, FX_ONE)
}

/// Cosine, saturated into `[-1, 1]`.
pub fn cos_fx(x: i64) -> (r: i64)
    ensures
        r == cos_s(x as int),
        -FX_ONE <= r <= FX_ONE,
{
    let m: i64 = reduce_angle(x);
    let shifted: i64 = m + FX_HALF_PI;
    sin_fx(shifted)
}

/// Rational arctangent approximation on `[0, 1]`:
/// `(pi/4) a + 0.273 a (1 - a)`, rounded toward zero at each step.
pub open spec fn atan_core_s(a: int) -> int {
    (FX_QUARTER_PI as int) * a / (FX_ONE as int) + ((ATAN_COEF as int) * a / (FX_ONE as int)) * (
    FX_ONE as int - a) / (FX_ONE as int)
}

/// Arctangent of a nonnegative ratio: the core approximation below one,
/// folded through `atan(a) = pi/2 - atan(1/a)` above it.
pub open spec fn atan_mag_s(a: int) -> int {
    if a <= FX_ONE as int {
        atan_core_s(a)
    } else {
        FX_HALF_PI as int - atan_core_s((FX_ONE as int) * (FX_ONE as int) / a)
    }
}

/// Arctangent, odd in its argument.
pub open spec fn atan_s(x: int) -> int {
    if x < 0 {
        -atan_mag_s(-x)
    } else {
        atan_mag_s(x)
    }
}

/// The core approximation on executable values.
fn atan_core(a: i64) -> (r: i64)
    requires
        0 <= a <= FX_ONE,
    ensures
        r == atan_core_s(a as int),
        0 <= r <= 1058398,
{
    let au: u64 = a as u64;
    proof {
        lemma_mul_bound(FX_QUARTER_PI as int, a as int, FX_QUARTER_PI as int, FX_ONE as int);
        vstd::arithmetic::div_mod::lemma_div_is_ordered(
            (FX_QUARTER_PI as int) * (a as int),
            (FX_QUARTER_PI as int) * (FX_ONE as int),
            FX_ONE as int,
        );
        vstd::arithmetic::div_mod::lemma_div_multiples_vanish(
            FX_QUARTER_PI as int,
            FX_ONE as int,
        );
    }
    let q1: u64 = ((FX_QUARTER_PI as u64) * au) / (FX_ONE as u64);
    proof {
        lemma_mul_bound(ATAN_COEF as int, a as int, ATAN_COEF as int, FX_ONE as int);
        vstd::arithmetic::div_mod::lemma_div_is_ordered(
            (ATAN_COEF as int) * (a as int),
            (ATAN_COEF as int) * (FX_ONE as int),
            FX_ONE as int,
        );
        vstd::arithmetic::div_mod::lemma_div_multiples_vanish(ATAN_COEF as int, FX_ONE as int);
    }
    let c1: u64 = ((ATAN_COEF as u64) * au) / (FX_ONE as u64);
    proof {
        lemma_mul_bound(c1 as int, FX_ONE as int - a as int, ATAN_COEF as int, FX_ONE as int);
        vstd::arithmetic::div_mod::lemma_div_is_ordered(
            (c1 as int) * (FX_ONE as int - a as int),
            (ATAN_COEF as int) * (FX_ONE as int),
            FX_ONE as int,
        );
    }
    let q2: u64 = (c1 * ((FX_ONE - a) as u64)) / (FX_ONE as u64);
    (q1 as i64) + (q2 as i64)
}

/// Arctangent of any fixed-point ratio; the result stays within a quarter
/// turn of zero.
pub fn atan_fx(x: i64) -> (r: i64)
    ensures
        r == atan_s(x as int),
        -FX_HALF_PI <= r <= FX_HALF_PI,
        x >= 0 ==> r >= 0,
{
    let a: u64 = abs64(x);
    let mag: i64 = if a <= FX_ONE as u64 {
        atan_core(a as i64)
    } else {
        let inv: u64 = ((FX_ONE as u64) * (FX_ONE as u64)) / a;
        proof {
            vstd::arithmetic::div_mod::lemma_div_is_ordered_by_denominator(
                (FX_ONE as int) * (FX_ONE as int),
                FX_ONE as int,
                a as int,
            );
            vstd::arithmetic::div_mod::lemma_div_multiples_vanish(FX_ONE as int, FX_ONE as int);
        }
        FX_HALF_PI - atan_core(inv as i64)
    };
    if x < 0 {
        -mag
    } else {
        mag
    }
}

/// Arccosine of a saturated cosine, through
/// `acos(c) = atan(sqrt(1 - c^2) / c)` with the quadrant put back.
pub open spec fn acos_s(c: int) -> int {
    let d = isqrt_s((FX_ONE as int) * (FX_ONE as int) - c * c);
    if c == 0 {
        FX_HALF_PI as int
    } else if c > 0 {
        atan_s(d * (FX_ONE as int) / c)
    } else {
        FX_PI as int - atan_s(d * (FX_ONE as int) / (-c))
    }
}

/// Arccosine on `[-1, 1]`; the result lies in `[0, pi]`.
pub fn acos_fx(c: i64) -> (r: i64)
    requires
        -FX_ONE <= c <= FX_ONE,
    ensures
        r == acos_s(c as int),
        0 <= r <= FX_PI,
{
    proof {
        lemma_mul_bound(c as int, c as int, FX_ONE as int, FX_ONE as int);
        assert((c as int) * (c as int) >= 0) by (nonlinear_arith);
    }
    let cc: u64 = (c * c) as u64;
    let dd: u128 = isqrt(((FX_ONE as u64) * (FX_ONE as u64) - cc) as u128);
    proof {
        assert(dd <= FX_ONE) by (nonlinear_arith)
            requires
                0 <= dd,
                (dd as int) * (dd as int) <= (FX_ONE as int) * (FX_ONE as int),
        ;
    }
    let d: u64 = dd as u64;
    if c == 0 {
        FX_HALF_PI
    } else if c > 0 {
        let q: u64 = (d * (FX_ONE as u64)) / (c as u64);
        proof {
            vstd::arithmetic::div_mod::lemma_div_is_ordered_by_denominator(
                (d as int) * (FX_ONE as int),
                1,
                c as int,
            );
        }
        atan_fx(q as i64)
    } else {
        let nc: u64 = (-(c as i128)) as u64;
        let q: u64 = (d * (FX_ONE as u64)) / nc;
        proof {
            vstd::arithmetic::div_mod::lemma_div_is_ordered_by_denominator(
                (d as int) * (FX_ONE as int),
                1,
                nc as int,
            );
        }
        let t: i64 = atan_fx(q as i64);
        FX_PI - t
    }
}

} // verus!
