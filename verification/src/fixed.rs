//! Fixed-point arithmetic helpers shared by the DSP and mixing code.
//!
//! Amplitudes and gains are carried as `i64` values with `crate::AMP_UNIT`
//! standing for one.  Division always rounds toward zero, like the `/`
//! operator of the execution platform on signed integers.

use vstd::prelude::*;

verus! {

/// Truncating division (rounds toward zero) for a positive divisor.
pub open spec fn tdiv(a: int, d: int) -> int
    recommends
        d > 0,
{
    if a >= 0 {
        a / d
    } else {
        -((-a) / d)
    }
}

/// `a` clamped into `[lo, hi]`.
pub open spec fn clip(a: int, lo: int, hi: int) -> int
    recommends
        lo <= hi,
{
    if a < lo {
        lo
    } else if a > hi {
        hi
    } else {
        a
    }
}

/// An amplitude scaled by a fixed-point gain: `x * g / AMP_UNIT`, rounded
/// toward zero.
pub open spec fn scale(x: int, g: int) -> int
    recommends
        g >= 0,
{
    tdiv(x * g, crate::AMP_UNIT as int)
}

/// Truncating division by a positive divisor.
pub fn tdiv_i64(a: i64, d: i64) -> (r: i64)
    requires
        d > 0,
        a > i64::MIN,
    ensures
        r == tdiv(a as int, d as int),
        a >= 0 ==> 0 <= r <= a,
        a < 0 ==> a <= r <= 0,
{
    if a >= 0 {
        let q = (a as u64) / (d as u64);
        proof {
            vstd::arithmetic::div_mod::lemma_div_pos_is_pos(a as int, d as int);
            vstd::arithmetic::div_mod::lemma_div_nonincreasing(a as int, d as int);
        }
        q as i64
    } else {
        let m = (-a) as u64;
        let q = m / (d as u64);
        proof {
            vstd::arithmetic::div_mod::lemma_div_pos_is_pos(m as int, d as int);
            vstd::arithmetic::div_mod::lemma_div_nonincreasing(m as int, d as int);
        }
        -(q as i64)
    }
}

/// `a` clamped into `[lo, hi]`.
pub fn clip_i64(a: i64, lo: i64, hi: i64) -> (r: i64)
    requires
        lo <= hi,
    ensures
        r == clip(a as int, lo as int, hi as int),
{
    if a < lo {
        lo
    } else if a > hi {
        hi
    } else {
        a
    }
}

/// Scales an amplitude by a fixed-point gain, rounding toward zero.
pub fn scale_i64(x: i64, g: i64) -> (r: i64)
    requires
        0 <= g <= 8_000_000,
        -1_000_000_000_000 <= x <= 1_000_000_000_000,
    ensures
        r == scale(x as int, g as int),
        x >= 0 ==> 0 <= r <= x * g / (crate::AMP_UNIT as int),
        -0x20_0000_0000_0000 <= r <= 0x20_0000_0000_0000,
{
    proof {
        mul_bound(x as int, 1_000_000_000_000, g as int, 8_000_000);
    }
    let p: i64 = x * g;
    let r = tdiv_i64(p, crate::AMP_UNIT);
    proof {
        if p >= 0 {
            vstd::arithmetic::div_mod::lemma_div_is_ordered(
                p as int,
                1_000_000_000_000int * 8_000_000,
                crate::AMP_UNIT as int,
            );
        } else {
            vstd::arithmetic::div_mod::lemma_div_is_ordered(
                (-p) as int,
                1_000_000_000_000int * 8_000_000,
                crate::AMP_UNIT as int,
            );
        }
    }
    r
}

/// `|x| <= xb` and `|y| <= yb` bound the product: `|x * y| <= xb * yb`.
pub proof fn mul_bound(x: int, xb: int, y: int, yb: int)
    requires
        -xb <= x <= xb,
        -yb <= y <= yb,
        0 <= xb,
        0 <= yb,
    ensures
        -(xb * yb) <= x * y <= xb * yb,
{
    assert(-(xb * yb) <= x * y <= xb * yb) by (nonlinear_arith)
        requires
            -xb <= x <= xb,
            -yb <= y <= yb,
            0 <= xb,
            0 <= yb,
    ;
}

/// Bounds on the operands bound the scaled value: if `|x| <= xb` and
/// `0 <= g <= gb` then `|scale(x, g)| <= xb * gb / AMP_UNIT`.
pub proof fn lemma_scale_bound(x: int, g: int, xb: int, gb: int)
    requires
        -xb <= x <= xb,
        0 <= g <= gb,
        0 <= xb,
    ensures
        -(xb * gb / (crate::AMP_UNIT as int)) <= scale(x, g) <= xb * gb / (crate::AMP_UNIT as int),
{
    let u = crate::AMP_UNIT as int;
    mul_bound(x, xb, g, gb);
    if x * g >= 0 {
        vstd::arithmetic::div_mod::lemma_div_is_ordered(x * g, xb * gb, u);
        vstd::arithmetic::div_mod::lemma_div_pos_is_pos(x * g, u);
        vstd::arithmetic::div_mod::lemma_div_pos_is_pos(xb * gb, u);
    } else {
        vstd::arithmetic::div_mod::lemma_div_is_ordered(-(x * g), xb * gb, u);
        vstd::arithmetic::div_mod::lemma_div_pos_is_pos(-(x * g), u);
        vstd::arithmetic::div_mod::lemma_div_pos_is_pos(xb * gb, u);
    }
}

/// Multiplying by a positive divisor and dividing by it cancel exactly.
pub proof fn lemma_tdiv_cancel(x: int, d: int)
    requires
        d > 0,
    ensures
        tdiv(x * d, d) == x,
{
    if x >= 0 {
        vstd::arithmetic::div_mod::lemma_div_by_multiple(x, d);
    } else {
        vstd::arithmetic::div_mod::lemma_div_by_multiple(-x, d);
        assert(-(x * d) == (-x) * d) by (nonlinear_arith);
    }
}

/// Multiplying by one unit and dividing by one unit cancel exactly.
pub proof fn lemma_scale_unit(x: int)
    ensures
        scale(x, crate::AMP_UNIT as int) == x,
{
    let u = crate::AMP_UNIT as int;
    if x >= 0 {
        vstd::arithmetic::div_mod::lemma_div_by_multiple(x, u);
    } else {
        vstd::arithmetic::div_mod::lemma_div_by_multiple(-x, u);
        assert(-(x * u) == (-x) * u) by (nonlinear_arith);
    }
}

/// Scaling by a gain of at most one unit cannot grow the magnitude: if
/// `|x| <= b` then `|scale(x, g)| <= b`.
pub proof fn lemma_scale_within(x: int, g: int, b: int)
    requires
        0 <= g <= crate::AMP_UNIT as int,
        -b <= x <= b,
        0 <= b,
    ensures
        -b <= scale(x, g) <= b,
        x >= 0 ==> 0 <= scale(x, g) <= x,
        x < 0 ==> x <= scale(x, g) <= 0,
{
    let u = crate::AMP_UNIT as int;
    if x >= 0 {
        assert(x * g <= x * u) by (nonlinear_arith)
            requires
                0 <= g <= u,
                x >= 0,
        ;
        assert(x * g >= 0) by (nonlinear_arith)
            requires
                x >= 0,
                g >= 0,
        ;
        vstd::arithmetic::div_mod::lemma_div_is_ordered(x * g, x * u, u);
        vstd::arithmetic::div_mod::lemma_div_by_multiple(x, u);
        vstd::arithmetic::div_mod::lemma_div_pos_is_pos(x * g, u);
    } else {
        let m = -x;
        assert(m * g <= m * u) by (nonlinear_arith)
            requires
                0 <= g <= u,
                m >= 0,
        ;
        assert(m * g >= 0) by (nonlinear_arith)
            requires
                m >= 0,
                g >= 0,
        ;
        assert(-(x * g) == (-x) * g) by (nonlinear_arith);
        vstd::arithmetic::div_mod::lemma_div_is_ordered(m * g, m * u, u);
        vstd::arithmetic::div_mod::lemma_div_by_multiple(m, u);
        vstd::arithmetic::div_mod::lemma_div_pos_is_pos(m * g, u);
    }
}

} // verus!
