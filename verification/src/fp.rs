//! Arithmetic on IEEE-754 double-precision bit patterns.
//!
//! Verified code carries every physical quantity as the bit pattern of an
//! IEEE-754 double, stored in a `u64`. The primitive operations go through
//! thin trusted wrappers around `rustc_apfloat`'s software implementation
//! of IEEE-754 binary64 arithmetic (round to nearest, ties to even — the
//! same results as hardware doubles). Each wrapper's result is named by an
//! uninterpreted spec function: an IEEE-754 operation is a pure function of
//! its operands' bit patterns, so equal arguments always give equal
//! results, which is all the verified layer assumes about them.
//!
//! Sign-bit operations (negation, absolute value, sign extraction) and the
//! larger-of-two selection are ordinary verified code over the bit
//! patterns, defined here exactly as IEEE-754 defines them.

use vstd::prelude::*;
use rustc_apfloat::Float;
use rustc_apfloat::ieee::Double;

verus! {

/// Sign bit of a double.
pub const FP_SIGN_MASK: u64 = 0x8000_0000_0000_0000;

/// Mantissa field of a double.
pub const FP_MANT_MASK: u64 = 0x000F_FFFF_FFFF_FFFF;

/// Exponent field of a double.
pub const FP_EXPO_MASK: u64 = 0x7FF0_0000_0000_0000;

/// Bits of +0.0.
pub const FP_ZERO: u64 = 0;

/// Bits of 1.0.
pub const FP_ONE: u64 = 0x3FF0_0000_0000_0000;

/// Bits of -1.0.
pub const FP_NEG_ONE: u64 = 0xBFF0_0000_0000_0000;

/// Bits of +infinity.
pub const FP_INF: u64 = 0x7FF0_0000_0000_0000;

/// Bits of the canonical quiet NaN.
pub const FP_QNAN: u64 = 0x7FF8_0000_0000_0000;

/// Bits of the largest finite double.
pub const FP_MAX: u64 = 0x7FEF_FFFF_FFFF_FFFF;

pub uninterp spec fn add_bits(a: u64, b: u64) -> u64;

pub uninterp spec fn sub_bits(a: u64, b: u64) -> u64;

pub uninterp spec fn mul_bits(a: u64, b: u64) -> u64;

pub uninterp spec fn div_bits(a: u64, b: u64) -> u64;

pub uninterp spec fn trunc_bits(a: u64) -> u64;

pub uninterp spec fn lt_bits(a: u64, b: u64) -> bool;

pub uninterp spec fn gt_bits(a: u64, b: u64) -> bool;

pub uninterp spec fn le_bits(a: u64, b: u64) -> bool;

pub uninterp spec fn eq_bits(a: u64, b: u64) -> bool;

pub uninterp spec fn of_u64_bits(x: u64) -> u64;

/// Relies on `rustc_apfloat`: IEEE-754 binary64 addition.
#[verifier::external_body]
pub(crate) fn fp_add(a: u64, b: u64) -> (r: u64)
    ensures
        r == add_bits(a, b),
{
    (Double::from_bits(a as u128) + Double::from_bits(b as u128)).value.to_bits() as u64
}

/// Relies on `rustc_apfloat`: IEEE-754 binary64 subtraction.
#[verifier::external_body]
pub(crate) fn fp_sub(a: u64, b: u64) -> (r: u64)
    ensures
        r == sub_bits(a, b),
{
    (Double::from_bits(a as u128) - Double::from_bits(b as u128)).value.to_bits() as u64
}

/// Relies on `rustc_apfloat`: IEEE-754 binary64 multiplication.
#[verifier::external_body]
pub(crate) fn fp_mul(a: u64, b: u64) -> (r: u64)
    ensures
        r == mul_bits(a, b),
{
    (Double::from_bits(a as u128) * Double::from_bits(b as u128)).value.to_bits() as u64
}

/// Relies on `rustc_apfloat`: IEEE-754 binary64 division.
#[verifier::external_body]
pub(crate) fn fp_div(a: u64, b: u64) -> (r: u64)
    ensures
        r == div_bits(a, b),
{
    (Double::from_bits(a as u128) / Double::from_bits(b as u128)).value.to_bits() as u64
}

/// Relies on `rustc_apfloat`'s `round_to_integral` with rounding toward
/// zero: the IEEE-754 truncation of a double to an integral double.
#[verifier::external_body]
pub(crate) fn fp_trunc(a: u64) -> (r: u64)
    ensures
        r == trunc_bits(a),
{
    Double::from_bits(a as u128).round_to_integral(rustc_apfloat::Round::TowardZero).value.to_bits()
        as u64
}

/// Relies on `rustc_apfloat`'s `PartialOrd`: the IEEE-754 ordered `<`
/// comparison (false whenever an operand is NaN).
#[verifier::external_body]
pub(crate) fn fp_lt(a: u64, b: u64) -> (r: bool)
    ensures
        r == lt_bits(a, b),
{
    Double::from_bits(a as u128) < Double::from_bits(b as u128)
}

/// Relies on `rustc_apfloat`'s `PartialOrd`: the IEEE-754 ordered `>`
/// comparison.
#[verifier::external_body]
pub(crate) fn fp_gt(a: u64, b: u64) -> (r: bool)
    ensures
        r == gt_bits(a, b),
{
    Double::from_bits(a as u128) > Double::from_bits(b as u128)
}

/// Relies on `rustc_apfloat`'s `PartialOrd`: the IEEE-754 ordered `<=`
/// comparison.
#[verifier::external_body]
pub(crate) fn fp_le(a: u64, b: u64) -> (r: bool)
    ensures
        r == le_bits(a, b),
{
    Double::from_bits(a as u128) <= Double::from_bits(b as u128)
}

/// Relies on `rustc_apfloat`'s `PartialEq`: IEEE-754 equality (+0.0 equals
/// -0.0; NaN equals nothing). This is not bit equality.
#[verifier::external_body]
pub(crate) fn fp_eq(a: u64, b: u64) -> (r: bool)
    ensures
        r == eq_bits(a, b),
{
    Double::from_bits(a as u128) == Double::from_bits(b as u128)
}

/// Relies on `rustc_apfloat`'s `from_u128`: an unsigned integer rounded to
/// the nearest double.
#[verifier::external_body]
pub(crate) fn fp_from_u64(x: u64) -> (r: u64)
    ensures
        r == of_u64_bits(x),
{
    Double::from_u128(x as u128).value.to_bits() as u64
}

/// IEEE-754 negation: flip the sign bit.
pub open spec fn neg_bits(a: u64) -> u64 {
    a ^ FP_SIGN_MASK
}

/// IEEE-754 absolute value: clear the sign bit.
pub open spec fn abs_bits(a: u64) -> u64 {
    a & !FP_SIGN_MASK
}

/// A double is NaN when its exponent field is all ones and its mantissa is
/// not zero.
pub open spec fn is_nan_bits(a: u64) -> bool {
    a & FP_EXPO_MASK == FP_EXPO_MASK && a & FP_MANT_MASK != 0
}

/// The sign function: NaN for NaN, else 1.0 carrying the operand's sign
/// bit (so signum of either zero is a signed one).
pub open spec fn signum_bits(a: u64) -> u64 {
    if is_nan_bits(a) {
        FP_QNAN
    } else {
        (a & FP_SIGN_MASK) | FP_ONE
    }
}

/// The larger of two doubles; if one operand is NaN, the other is
/// returned.
pub open spec fn max_bits(a: u64, b: u64) -> u64 {
    if is_nan_bits(a) {
        b
    } else if is_nan_bits(b) {
        a
    } else if lt_bits(a, b) {
        b
    } else {
        a
    }
}

pub(crate) fn fp_neg(a: u64) -> (r: u64)
    ensures
        r == neg_bits(a),
{
    a ^ FP_SIGN_MASK
}

pub(crate) fn fp_abs(a: u64) -> (r: u64)
    ensures
        r == abs_bits(a),
{
    a & !FP_SIGN_MASK
}

pub(crate) fn fp_is_nan(a: u64) -> (r: bool)
    ensures
        r == is_nan_bits(a),
{
    a & FP_EXPO_MASK == FP_EXPO_MASK && a & FP_MANT_MASK != 0
}

pub(crate) fn fp_signum(a: u64) -> (r: u64)
    ensures
        r == signum_bits(a),
{
    if fp_is_nan(a) {
        FP_QNAN
    } else {
        (a & FP_SIGN_MASK) | FP_ONE
    }
}

pub(crate) fn fp_max(a: u64, b: u64) -> (r: u64)
    ensures
        r == max_bits(a, b),
{
    if fp_is_nan(a) {
        b
    } else if fp_is_nan(b) {
        a
    } else if fp_lt(a, b) {
        b
    } else {
        a
    }
}

/// Bits of the double nearest to `n / d`. Every decimal constant of the
/// library is written this way: for exactly representable `n` and `d` the
/// correctly rounded quotient equals the correctly rounded decimal
/// literal.
pub open spec fn ratio_bits(n: u64, d: u64) -> u64 {
    div_bits(of_u64_bits(n), of_u64_bits(d))
}

pub(crate) fn fp_ratio(n: u64, d: u64) -> (r: u64)
    ensures
        r == ratio_bits(n, d),
{
    fp_div(fp_from_u64(n), fp_from_u64(d))
}

} // verus!
