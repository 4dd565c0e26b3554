//! Fixed-point helpers: clamping and scaling by a non-negative rational
//! factor with rounding toward zero. All the simulation's arithmetic goes
//! through these, so that every step has one exact mathematical meaning.

use vstd::prelude::*;

verus! {

/// `v` clamped into `[lo, hi]`.
pub open spec fn clamp_spec(v: int, lo: int, hi: int) -> int {
    if v < lo {
        lo
    } else if v > hi {
        hi
    } else {
        v
    }
}

/// `v * num / den` rounded toward zero, for `num >= 0`, `den > 0`.
pub open spec fn mul_div_spec(v: int, num: int, den: int) -> int {
    if v >= 0 {
        (v * num) / den
    } else {
        -(((-v) * num) / den)
    }
}

pub fn clamp_i64(v: i64, lo: i64, hi: i64) -> (r: i64)
    requires
        lo <= hi,
    ensures
        r == clamp_spec(v as int, lo as int, hi as int),
{
    if v < lo {
        lo
    } else if v > hi {
        hi
    } else {
        v
    }
}

/// Scale `v` by `num / den`, rounding toward zero.
pub fn mul_div(v: i64, num: i64, den: i64) -> (r: i64)
    requires
        0 <= num,
        0 < den,
        -0x7fff_ffff_ffff_ffff <= v,
        v * num <= 0x7fff_ffff_ffff_ffff,
        -0x7fff_ffff_ffff_ffff <= v * num,
    ensures
        r == mul_div_spec(v as int, num as int, den as int),
{
    if v >= 0 {
        (v * num) / den
    } else {
        proof {
            assert((-v) * num == -(v * num)) by (nonlinear_arith);
        }
        -(((-v) * num) / den)
    }
}

/// Bounds on the product and on the scaled value from bounds on the inputs.
pub proof fn lemma_mul_div_bound(v: int, num: int, den: int, bv: int, bn: int)
    requires
        -bv <= v <= bv,
        0 <= num <= bn,
        0 < den,
        0 <= bv,
    ensures
        -(bv * bn) <= v * num <= bv * bn,
        -((bv * bn) / den) <= mul_div_spec(v, num, den) <= (bv * bn) / den,
{
    assert(-(bv * bn) <= v * num <= bv * bn) by (nonlinear_arith)
        requires -bv <= v <= bv && 0 <= num <= bn && 0 <= bv;
    if v >= 0 {
        assert(0 <= v * num) by (nonlinear_arith)
            requires 0 <= v && 0 <= num;
        assert((v * num) / den <= (bv * bn) / den) by (nonlinear_arith)
            requires v * num <= bv * bn && 0 < den;
        assert(0 <= (v * num) / den) by (nonlinear_arith)
            requires 0 <= v * num && 0 < den;
    } else {
        let w = -v;
        assert(0 <= w * num <= bv * bn) by (nonlinear_arith)
            requires 0 <= w <= bv && 0 <= num <= bn;
        assert((w * num) / den <= (bv * bn) / den) by (nonlinear_arith)
            requires w * num <= bv * bn && 0 < den;
        assert(0 <= (w * num) / den) by (nonlinear_arith)
            requires 0 <= w * num && 0 < den;
    }
}

/// Scaling by a proper fraction moves toward zero without crossing it:
/// the result lies between zero and the input.
pub proof fn lemma_mul_div_fraction(d: int, off: int, den: int)
    requires
        0 <= off < den,
    ensures
        d >= 0 ==> 0 <= mul_div_spec(d, off, den) <= d,
        d < 0 ==> d <= mul_div_spec(d, off, den) <= 0,
{
    if d >= 0 {
        assert(0 <= d * off <= d * den) by (nonlinear_arith)
            requires 0 <= d && 0 <= off <= den;
        assert((d * off) / den <= (d * den) / den) by (nonlinear_arith)
            requires d * off <= d * den && 0 < den;
        assert((d * den) / den == d) by (nonlinear_arith)
            requires 0 < den;
        assert(0 <= (d * off) / den) by (nonlinear_arith)
            requires 0 <= d * off && 0 < den;
    } else {
        let w = -d;
        assert(0 <= w * off <= w * den) by (nonlinear_arith)
            requires 0 <= w && 0 <= off <= den;
        assert((w * off) / den <= (w * den) / den) by (nonlinear_arith)
            requires w * off <= w * den && 0 < den;
        assert((w * den) / den == w) by (nonlinear_arith)
            requires 0 < den;
        assert(0 <= (w * off) / den) by (nonlinear_arith)
            requires 0 <= w * off && 0 < den;
    }
}

} // verus!
