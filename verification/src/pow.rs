//! Verified power functions on double bit patterns.
//!
//! `fp_powi` raises a double to a small non-negative integer power by
//! repeated multiplication. `fp_powf` raises a positive double to an
//! arbitrary double power as `2^(y*log2(x))`: the base-2 logarithm comes
//! from the bit-level exponent plus an inverse-hyperbolic-tangent series
//! for the mantissa, and the power of two from a truncated integer part
//! plus a Taylor series for the fraction. Both are ordinary verified code
//! over the primitives of [`crate::fp`]; their results are pinned exactly
//! by the spec functions below.

use vstd::prelude::*;
use crate::fp::{
    add_bits, sub_bits, mul_bits, div_bits, trunc_bits, lt_bits, gt_bits, eq_bits, of_u64_bits,
    is_nan_bits, neg_bits, ratio_bits, fp_add, fp_sub, fp_mul, fp_div, fp_trunc, fp_lt, fp_gt,
    fp_eq, fp_from_u64, fp_is_nan, fp_neg, FP_SIGN_MASK, FP_MANT_MASK, FP_EXPO_MASK, FP_ZERO,
    FP_ONE, FP_INF, FP_QNAN,
};

verus! {

/// Bits of 2^64; multiplying a subnormal by it is exact and yields a
/// normal double.
pub const FP_TWO64: u64 = 0x43F0_0000_0000_0000;

/// The implicit leading mantissa bit of a normal double.
pub const FP_IMPLICIT_BIT: u64 = 0x0010_0000_0000_0000;

/// `a` raised to the `e`-th power, as a left-to-right product of `e`
/// factors starting from 1.0.
pub open spec fn powi_bits(a: u64, e: nat) -> u64
    decreases e,
{
    if e == 0 {
        FP_ONE
    } else {
        mul_bits(powi_bits(a, (e - 1) as nat), a)
    }
}

pub(crate) fn fp_powi(a: u64, e: u32) -> (r: u64)
    ensures
        r == powi_bits(a, e as nat),
{
    let mut r: u64 = FP_ONE;
    let mut i: u32 = 0;
    while i < e
        invariant
            i <= e,
            r == powi_bits(a, i as nat),
        decreases e - i,
    {
        r = fp_mul(r, a);
        i = i + 1;
    }
    r
}

/// Bits of the double nearest to ln 2.
pub open spec fn ln2_bits() -> u64 {
    ratio_bits(6931471805599453, 10000000000000000)
}

pub(crate) fn fp_ln2() -> (r: u64)
    ensures
        r == ln2_bits(),
{
    crate::fp::fp_ratio(6931471805599453, 10000000000000000)
}

/// The odd power `t^(2j+1)` as iterated products with `t*t`.
pub open spec fn ln_pow(t: u64, j: nat) -> u64
    decreases j,
{
    if j == 0 {
        t
    } else {
        mul_bits(ln_pow(t, (j - 1) as nat), mul_bits(t, t))
    }
}

/// Partial sum of `atanh t = t + t^3/3 + t^5/5 + ...`, first `j` terms.
pub open spec fn ln_sum(t: u64, j: nat) -> u64
    decreases j,
{
    if j == 0 {
        FP_ZERO
    } else {
        add_bits(
            ln_sum(t, (j - 1) as nat),
            div_bits(ln_pow(t, (j - 1) as nat), of_u64_bits((2 * (j - 1) + 1) as u64)),
        )
    }
}

fn ln_atanh_sum(t: u64) -> (r: u64)
    ensures
        r == ln_sum(t, 15),
{
    let t2 = fp_mul(t, t);
    let mut acc: u64 = FP_ZERO;
    let mut tp: u64 = t;
    let mut j: u64 = 0;
    while j < 15
        invariant
            j <= 15,
            t2 == mul_bits(t, t),
            acc == ln_sum(t, j as nat),
            tp == ln_pow(t, j as nat),
        decreases 15 - j,
    {
        acc = fp_add(acc, fp_div(tp, fp_from_u64(2 * j + 1)));
        tp = fp_mul(tp, t2);
        j = j + 1;
    }
    acc
}

/// The Taylor term `w^j / j!` as iteratively computed.
pub open spec fn exp_term(w: u64, j: nat) -> u64
    decreases j,
{
    if j == 0 {
        FP_ONE
    } else {
        div_bits(mul_bits(exp_term(w, (j - 1) as nat), w), of_u64_bits(j as u64))
    }
}

/// Partial sum of `exp w = 1 + w + w^2/2! + ...` through the `j`-th term.
pub open spec fn exp_sum(w: u64, j: nat) -> u64
    decreases j,
{
    if j == 0 {
        FP_ONE
    } else {
        add_bits(exp_sum(w, (j - 1) as nat), exp_term(w, j))
    }
}

fn exp_series(w: u64) -> (r: u64)
    ensures
        r == exp_sum(w, 17),
{
    let mut acc: u64 = FP_ONE;
    let mut term: u64 = FP_ONE;
    let mut j: u64 = 0;
    while j < 17
        invariant
            j <= 17,
            acc == exp_sum(w, j as nat),
            term == exp_term(w, j as nat),
        decreases 17 - j,
    {
        term = fp_div(fp_mul(term, w), fp_from_u64(j + 1));
        acc = fp_add(acc, term);
        j = j + 1;
    }
    acc
}

/// A positive subnormal is rescaled by 2^64 so that the exponent and
/// mantissa fields can be read off a normal double.
pub open spec fn norm_input(x: u64) -> u64 {
    if x & FP_EXPO_MASK == 0 {
        mul_bits(x, FP_TWO64)
    } else {
        x
    }
}

/// The unbiased binary exponent of a positive finite double.
pub open spec fn exp_unbiased(x: u64) -> int {
    if x & FP_EXPO_MASK == 0 {
        ((norm_input(x) & FP_EXPO_MASK) >> 52u64) as int - 1023 - 64
    } else {
        ((x & FP_EXPO_MASK) >> 52u64) as int - 1023
    }
}

/// The mantissa of a positive finite double, as a double in [1, 2).
pub open spec fn mant_bits(x: u64) -> u64 {
    (norm_input(x) & FP_MANT_MASK) | FP_ONE
}

/// `ln m` for a mantissa `m` in [1, 2), via `2 atanh((m-1)/(m+1))`.
pub open spec fn ln_mant(m: u64) -> u64 {
    mul_bits(of_u64_bits(2), ln_sum(div_bits(sub_bits(m, FP_ONE), add_bits(m, FP_ONE)), 15))
}

/// A signed integer as a double (exact for the magnitudes used here).
pub open spec fn double_of_int(k: int) -> u64 {
    if k >= 0 {
        of_u64_bits(k as u64)
    } else {
        neg_bits(of_u64_bits((-k) as u64))
    }
}

/// `log2 x` for a positive nonzero finite `x`: the unbiased exponent plus
/// `ln(mantissa) / ln 2`.
pub open spec fn log2_pos_bits(x: u64) -> u64 {
    add_bits(double_of_int(exp_unbiased(x)), div_bits(ln_mant(mant_bits(x)), ln2_bits()))
}

fn double_from_int(k: i64) -> (r: u64)
    requires
        -4000 <= k <= 4000,
    ensures
        r == double_of_int(k as int),
{
    if k >= 0 {
        fp_from_u64(k as u64)
    } else {
        fp_neg(fp_from_u64((-k) as u64))
    }
}

fn log2_pos(x: u64) -> (r: u64)
    requires
        !is_nan_bits(x),
        !lt_bits(x, FP_ZERO),
        !eq_bits(x, FP_ZERO),
        x != FP_INF,
    ensures
        r == log2_pos_bits(x),
{
    let xe: u64 = x & FP_EXPO_MASK;
    let xn: u64 = if xe == 0 {
        fp_mul(x, FP_TWO64)
    } else {
        x
    };
    let ef: u64 = (xn & FP_EXPO_MASK) >> 52u64;
    assert(ef <= 2047) by (bit_vector)
        requires
            ef == (xn & 0x7FF0_0000_0000_0000u64) >> 52u64,
    ;
    let k: i64 = if xe == 0 {
        ef as i64 - 1023 - 64
    } else {
        ef as i64 - 1023
    };
    let m: u64 = (xn & FP_MANT_MASK) | FP_ONE;
    let t: u64 = fp_div(fp_sub(m, FP_ONE), fp_add(m, FP_ONE));
    let lm: u64 = fp_mul(fp_from_u64(2), ln_atanh_sum(t));
    fp_add(double_from_int(k), fp_div(lm, fp_ln2()))
}

/// The integer value of a truncated double, clamped to [-1100, 1100];
/// NaN and infinities clamp like huge values of their sign.
pub open spec fn int_of_trunc(zt: u64) -> int {
    let ef = ((zt & FP_EXPO_MASK) >> 52u64) as int;
    let sign: int = if zt & FP_SIGN_MASK != 0 {
        -1
    } else {
        1
    };
    if ef < 1023 {
        0
    } else if ef >= 1075 {
        sign * 1100
    } else {
        let v = (((zt & FP_MANT_MASK) | FP_IMPLICIT_BIT) >> ((1075 - ef) as u64)) as int;
        if v > 1100 {
            sign * 1100
        } else {
            sign * v
        }
    }
}

fn trunc_to_int(zt: u64) -> (r: i64)
    ensures
        r as int == int_of_trunc(zt),
        -1100 <= r <= 1100,
{
    let ef: u64 = (zt & FP_EXPO_MASK) >> 52u64;
    assert(ef <= 2047) by (bit_vector)
        requires
            ef == (zt & 0x7FF0_0000_0000_0000u64) >> 52u64,
    ;
    let neg: bool = zt & FP_SIGN_MASK != 0;
    if ef < 1023 {
        0
    } else if ef >= 1075 {
        if neg {
            -1100
        } else {
            1100
        }
    } else {
        let v: u64 = ((zt & FP_MANT_MASK) | FP_IMPLICIT_BIT) >> (1075 - ef);
        let vc: u64 = if v > 1100 {
            1100
        } else {
            v
        };
        if neg {
            -(vc as i64)
        } else {
            vc as i64
        }
    }
}

/// Bits of the double 2^k (infinity above the representable range,
/// subnormal or zero below it).
pub open spec fn pow2_bits(k: int) -> u64 {
    if k > 1023 {
        FP_INF
    } else if k >= -1022 {
        ((k + 1023) as u64) << 52u64
    } else if k >= -1074 {
        1u64 << ((k + 1074) as u64)
    } else {
        0u64
    }
}

fn pow2(k: i64) -> (r: u64)
    requires
        -4000 <= k <= 4000,
    ensures
        r == pow2_bits(k as int),
{
    if k > 1023 {
        FP_INF
    } else if k >= -1022 {
        ((k + 1023) as u64) << 52u64
    } else if k >= -1074 {
        1u64 << ((k + 1074) as u64)
    } else {
        0u64
    }
}

/// `2^z`: truncated integer part as an exact power of two, fractional
/// part in [0, 1) via `exp(f ln 2)`.
pub open spec fn exp2_bits(z: u64) -> u64 {
    if is_nan_bits(z) {
        FP_QNAN
    } else {
        let k0 = int_of_trunc(trunc_bits(z));
        let f0 = sub_bits(z, double_of_int(k0));
        let k = if lt_bits(f0, FP_ZERO) {
            k0 - 1
        } else {
            k0
        };
        let f = if lt_bits(f0, FP_ZERO) {
            add_bits(f0, FP_ONE)
        } else {
            f0
        };
        mul_bits(pow2_bits(k), exp_sum(mul_bits(f, ln2_bits()), 17))
    }
}

fn exp2(z: u64) -> (r: u64)
    ensures
        r == exp2_bits(z),
{
    if fp_is_nan(z) {
        FP_QNAN
    } else {
        let mut k: i64 = trunc_to_int(fp_trunc(z));
        let mut f: u64 = fp_sub(z, double_from_int(k));
        if fp_lt(f, FP_ZERO) {
            k = k - 1;
            f = fp_add(f, FP_ONE);
        }
        fp_mul(pow2(k), exp_series(fp_mul(f, fp_ln2())))
    }
}

/// `x` raised to the power `y`. NaN for a NaN or negative base; the usual
/// conventions for a zero or infinite base; otherwise `2^(y*log2 x)`.
pub closed spec fn pow_bits(x: u64, y: u64) -> u64 {
    if is_nan_bits(x) {
        FP_QNAN
    } else if lt_bits(x, FP_ZERO) {
        FP_QNAN
    } else if eq_bits(x, FP_ZERO) {
        if gt_bits(y, FP_ZERO) {
            FP_ZERO
        } else if eq_bits(y, FP_ZERO) {
            FP_ONE
        } else {
            FP_INF
        }
    } else if x == FP_INF {
        if gt_bits(y, FP_ZERO) {
            FP_INF
        } else if eq_bits(y, FP_ZERO) {
            FP_ONE
        } else {
            FP_ZERO
        }
    } else {
        exp2_bits(mul_bits(y, log2_pos_bits(x)))
    }
}

pub(crate) fn fp_powf(x: u64, y: u64) -> (r: u64)
    ensures
        r == pow_bits(x, y),
{
    proof {
        reveal(pow_bits);
    }
    if fp_is_nan(x) {
        FP_QNAN
    } else if fp_lt(x, FP_ZERO) {
        FP_QNAN
    } else if fp_eq(x, FP_ZERO) {
        if fp_gt(y, FP_ZERO) {
            FP_ZERO
        } else if fp_eq(y, FP_ZERO) {
            FP_ONE
        } else {
            FP_INF
        }
    } else if x == FP_INF {
        if fp_gt(y, FP_ZERO) {
            FP_INF
        } else if fp_eq(y, FP_ZERO) {
            FP_ONE
        } else {
            FP_ZERO
        }
    } else {
        exp2(fp_mul(y, log2_pos(x)))
    }
}

} // verus!
