//! Signed 64-bit fixed-point scalars: one million raw units stand for `1.0`.
//!
//! Multiplication and division truncate toward zero, as the raw integer
//! quotient of the widened product does. The spec functions here state that
//! rounding exactly, so every arithmetic contract in the crate is closed-form.

use vstd::prelude::*;

verus! {

/// Raw units per `1.0`.
pub const FX_ONE: i64 = 1000000;

/// Largest magnitude accepted by `fx_mul`: the widened product of two such
/// operands, divided by `FX_ONE`, still fits in an `i64`.
pub const FX_LIM: i64 = 3000000000000;

/// pi in raw units.
pub const FX_PI: i64 = 3141593;

/// 2*pi in raw units, kept at exactly twice `FX_PI`.
pub const FX_TWO_PI: i64 = 6283186;

/// pi/2 in raw units.
pub const FX_HALF_PI: i64 = 1570796;

/// pi/4 in raw units.
pub const FX_QUARTER_PI: i64 = 785398;

pub open spec fn abs_i(a: int) -> int {
    if a < 0 {
        -a
    } else {
        a
    }
}

/// Division truncated toward zero, as the executable code rounds: the
/// magnitude is divided with Euclidean (here: ordinary nonnegative) division
/// and the sign is put back.
pub open spec fn tdiv(a: int, b: int) -> int {
    if (a < 0) == (b < 0) {
        abs_i(a) / abs_i(b)
    } else {
        -(abs_i(a) / abs_i(b))
    }
}

/// Fixed-point product: `a * b` in raw units, truncated toward zero.
pub open spec fn fx_mul_s(a: int, b: int) -> int {
    tdiv(a * b, FX_ONE as int)
}

/// Fixed-point quotient: `a / b` in raw units, truncated toward zero.
pub open spec fn fx_div_s(a: int, b: int) -> int {
    tdiv(a * (FX_ONE as int), b)
}

/// `|a * b| <= al * bl` whenever `|a| <= al` and `|b| <= bl`.
pub proof fn lemma_mul_bound(a: int, b: int, al: int, bl: int)
    by (nonlinear_arith)
    requires
        -al <= a <= al,
        -bl <= b <= bl,
        0 <= al,
        0 <= bl,
    ensures
        -(al * bl) <= a * b <= al * bl,
{
}

/// The magnitude of a product is the product of the magnitudes.
pub proof fn lemma_abs_mul(a: int, b: int)
    by (nonlinear_arith)
    ensures
        abs_i(a * b) == abs_i(a) * abs_i(b),
{
}

pub fn abs64(a: i64) -> (r: u64)
    ensures
        r == abs_i(a as int),
{
    if a < 0 {
        (-(a as i128)) as u64
    } else {
        a as u64
    }
}

/// Fixed-point multiplication, exact to the truncating spec.
pub fn fx_mul(a: i64, b: i64) -> (r: i64)
    requires
        -FX_LIM <= a <= FX_LIM,
        -FX_LIM <= b <= FX_LIM,
    ensures
        r == fx_mul_s(a as int, b as int),
{
    let neg: bool = (a < 0) != (b < 0);
    let aa: u128 = abs64(a) as u128;
    let bb: u128 = abs64(b) as u128;
    proof {
        lemma_mul_bound(aa as int, bb as int, FX_LIM as int, FX_LIM as int);
        lemma_abs_mul(a as int, b as int);
    }
    let p: u128 = aa * bb;
    let q: u128 = p / (FX_ONE as u128);
    assert(q == abs_i((a as int) * (b as int)) / (FX_ONE as int));
    assert(q <= 9000000000000000000) by (nonlinear_arith)
        requires
            q == p / (FX_ONE as u128),
            p <= (FX_LIM as int) * (FX_LIM as int),
    ;
    proof {
        if (a < 0) == (b < 0) {
            assert((a as int) * (b as int) >= 0) by (nonlinear_arith)
                requires
                    (a < 0) == (b < 0),
            ;
        } else {
            assert((a as int) * (b as int) <= 0) by (nonlinear_arith)
                requires
                    (a < 0) != (b < 0),
            ;
        }
    }
    if neg {
        -(q as i64)
    } else {
        q as i64
    }
}

/// Fixed-point division, exact to the truncating spec.
pub fn fx_div(a: i64, b: i64) -> (r: i64)
    requires
        -FX_LIM <= a <= FX_LIM,
        b != 0,
    ensures
        r == fx_div_s(a as int, b as int),
{
    let neg: bool = (a < 0) != (b < 0);
    let aa: u128 = abs64(a) as u128;
    let bb: u128 = abs64(b) as u128;
    let p: u128 = aa * (FX_ONE as u128);
    proof {
        lemma_abs_mul(a as int, FX_ONE as int);
        vstd::arithmetic::div_mod::lemma_div_is_ordered(
            p as int,
            (FX_LIM as int) * (FX_ONE as int),
            bb as int,
        );
        vstd::arithmetic::div_mod::lemma_div_is_ordered_by_denominator(
            (FX_LIM as int) * (FX_ONE as int),
            1,
            bb as int,
        );
    }
    let q: u128 = p / bb;
    assert(abs_i((a as int) * (FX_ONE as int)) == aa * (FX_ONE as int));
    if neg {
        -(q as i64)
    } else {
        q as i64
    }
}

/// The magnitude of a truncated quotient is the quotient of the magnitudes.
pub proof fn lemma_tdiv_abs(a: int, b: int)
    requires
        b != 0,
    ensures
        abs_i(tdiv(a, b)) == abs_i(a) / abs_i(b),
        0 <= abs_i(a) / abs_i(b) <= abs_i(a),
{
    vstd::arithmetic::div_mod::lemma_div_basics(abs_i(a));
    vstd::arithmetic::div_mod::lemma_div_pos_is_pos(abs_i(a), abs_i(b));
    vstd::arithmetic::div_mod::lemma_div_is_ordered_by_denominator(abs_i(a), 1, abs_i(b));
}

/// A bound on the magnitude of a fixed-point product.
pub proof fn lemma_fx_mul_s_bound(a: int, b: int, al: int, bl: int)
    requires
        -al <= a <= al,
        -bl <= b <= bl,
        0 <= al,
        0 <= bl,
    ensures
        abs_i(fx_mul_s(a, b)) <= (al * bl) / (FX_ONE as int),
{
    lemma_abs_mul(a, b);
    lemma_mul_bound(a, b, al, bl);
    lemma_tdiv_abs(a * b, FX_ONE as int);
    vstd::arithmetic::div_mod::lemma_div_is_ordered(abs_i(a * b), al * bl, FX_ONE as int);
}

/// Truncating division of a widened value by `FX_ONE`.
pub fn scale_down(s: i128) -> (r: i64)
    requires
        -9000000000000000000000000 <= s <= 9000000000000000000000000,
    ensures
        r == tdiv(s as int, FX_ONE as int),
{
    let neg: bool = s < 0;
    let m: u128 = if s < 0 {
        (-s) as u128
    } else {
        s as u128
    };
    let q: u128 = m / (FX_ONE as u128);
    proof {
        vstd::arithmetic::div_mod::lemma_div_is_ordered(
            m as int,
            9000000000000000000000000,
            FX_ONE as int,
        );
    }
    if neg {
        -(q as i64)
    } else {
        q as i64
    }
}

/// Truncating division on widened values.
pub fn tdiv_wide(a: i128, b: i128) -> (r: i128)
    requires
        b != 0,
        -170141183460469231731687303715884105727 <= a,
        -170141183460469231731687303715884105727 <= b,
    ensures
        r == tdiv(a as int, b as int),
{
    let neg: bool = (a < 0) != (b < 0);
    let ma: u128 = if a < 0 {
        (-a) as u128
    } else {
        a as u128
    };
    let mb: u128 = if b < 0 {
        (-b) as u128
    } else {
        b as u128
    };
    proof {
        vstd::arithmetic::div_mod::lemma_div_is_ordered_by_denominator(ma as int, 1, mb as int);
    }
    let q: u128 = ma / mb;
    if neg {
        -(q as i128)
    } else {
        q as i128
    }
}

/// The nonnegative integer square root, as a recursive spec definition.
pub open spec fn isqrt_s(n: int) -> int
    decreases n,
{
    if n <= 0 {
        0
    } else {
        let p = isqrt_s(n - 1);
        if (p + 1) * (p + 1) <= n {
            p + 1
        } else {
            p
        }
    }
}

/// `isqrt_s` is the rounded-down square root.
pub proof fn lemma_isqrt_bounds(n: int)
    requires
        0 <= n,
    ensures
        0 <= isqrt_s(n),
        isqrt_s(n) * isqrt_s(n) <= n,
        n < (isqrt_s(n) + 1) * (isqrt_s(n) + 1),
    decreases n,
{
    if n == 0 {
    } else {
        lemma_isqrt_bounds(n - 1);
        let p = isqrt_s(n - 1);
        if (p + 1) * (p + 1) <= n {
            assert(n - 1 < (p + 1) * (p + 1));
            assert(n < (p + 2) * (p + 2)) by (nonlinear_arith)
                requires
                    n <= (p + 1) * (p + 1),
                    0 <= p,
            ;
        }
    }
}

/// Any value with the rounded-down-root property is `isqrt_s`.
pub proof fn lemma_isqrt_unique(n: int, r: int)
    requires
        0 <= n,
        0 <= r,
        r * r <= n,
        n < (r + 1) * (r + 1),
    ensures
        r == isqrt_s(n),
{
    lemma_isqrt_bounds(n);
    let s = isqrt_s(n);
    if r < s {
        assert((r + 1) * (r + 1) <= s * s) by (nonlinear_arith)
            requires
                0 <= r,
                r + 1 <= s,
        ;
    }
    if s < r {
        assert((s + 1) * (s + 1) <= r * r) by (nonlinear_arith)
            requires
                0 <= s,
                s + 1 <= r,
        ;
    }
}

/// Rounded-down square root, by bisection.
pub fn isqrt(n: u128) -> (r: u128)
    ensures
        r == isqrt_s(n as int),
        r * r <= n,
        n < (r + 1) * (r + 1),
{
    let mut lo: u128 = 0;
    let mut hi: u128 = 0xffffffffffffffff;
    if n < hi {
        hi = n;
    }
    proof {
        assert((hi + 1) * (hi + 1) > n) by (nonlinear_arith)
            requires
                hi == if n < 0xffffffffffffffff {
                    n as int
                } else {
                    0xffffffffffffffff
                },
                n <= 0xffffffffffffffffffffffffffffffff,
        ;
    }
    while lo < hi
        invariant
            0 <= lo <= hi <= 0xffffffffffffffff,
            lo * lo <= n,
            n < (hi + 1) * (hi + 1),
        decreases hi - lo,
    {
        let mid: u128 = lo + (hi - lo + 1) / 2;
        proof {
            lemma_mul_bound(mid as int, mid as int, 0xffffffffffffffff, 0xffffffffffffffff);
        }
        let sq: u128 = mid * mid;
        if sq <= n {
            lo = mid;
        } else {
            hi = mid - 1;
        }
    }
    proof {
        lemma_isqrt_unique(n as int, lo as int);
    }
    lo
}

} // verus!
