//! Scalar arithmetic for the simulation.
//!
//! Verus cannot reason about hardware floating-point, so every scalar in this
//! crate is carried as the bit pattern of an IEEE-754 binary64 value, stored
//! in a `u64`. The arithmetic itself is done by the `rustc_apfloat` and
//! `ieee_apsqrt` crates, which implement IEEE-754 binary64 operations on bit
//! patterns in software, rounding to nearest, ties to even. Each operation is
//! deterministic in its argument bits alone, so its result is given a name
//! (`sum_bits`, `prod_bits`, ...) that the contracts of the simulation speak
//! of exactly.
//!
//! The few facts stated beside the names (behaviour of zeros) are taken from
//! the sources of those crates and from IEEE-754 itself; they are what the
//! proofs about resting bodies and coincident bodies rest on.
use vstd::prelude::*;

verus! {

/// Bit pattern of positive zero.
pub const POS_ZERO: u64 = 0;

/// Bit pattern of negative zero.
pub const NEG_ZERO: u64 = 0x8000_0000_0000_0000;

/// Bit pattern of the gravitational constant, 6.67408e-11 m^3 kg^-1 s^-2.
pub const G_BITS: u64 = 0x3DD2_5877_5E37_FA03;

/// The bit patterns that compare equal to zero: the two IEEE-754 zeros.
pub open spec fn is_zero_bits(b: u64) -> bool {
    b == POS_ZERO || b == NEG_ZERO
}

/// A bit pattern with all exponent bits set and a non-empty significand
/// encodes a NaN.
pub open spec fn is_nan_bits(b: u64) -> bool {
    b & 0x7FF0_0000_0000_0000 == 0x7FF0_0000_0000_0000 && b & 0x000F_FFFF_FFFF_FFFF != 0
}

/// A bit pattern whose exponent bits are not all set encodes a finite value
/// (normal, subnormal or zero).
pub open spec fn is_finite_bits(b: u64) -> bool {
    b & 0x7FF0_0000_0000_0000 != 0x7FF0_0000_0000_0000
}

/// Whether a bit pattern compares equal to zero under IEEE-754 equality.
pub fn bits_are_zero(b: u64) -> (r: bool)
    ensures
        r == is_zero_bits(b),
{
    b == POS_ZERO || b == NEG_ZERO
}

/// The binary64 sum of two bit patterns, rounded to nearest, ties to even.
pub uninterp spec fn sum_bits(a: u64, b: u64) -> u64;

/// The binary64 difference of two bit patterns, rounded to nearest, ties to even.
pub uninterp spec fn diff_bits(a: u64, b: u64) -> u64;

/// The binary64 product of two bit patterns, rounded to nearest, ties to even.
pub uninterp spec fn prod_bits(a: u64, b: u64) -> u64;

/// The binary64 quotient of two bit patterns, rounded to nearest, ties to even.
pub uninterp spec fn quot_bits(a: u64, b: u64) -> u64;

/// The correctly rounded binary64 square root of a bit pattern.
pub uninterp spec fn sqrt_bits(a: u64) -> u64;

/// Relies on rustc_apfloat's `Float::add_r` on `ieee::Double`: binary64
/// addition of the two bit patterns, rounded to nearest, ties to even.
/// A sum of `x` and a zero is `x` itself when `x` is neither NaN nor zero,
/// and a sum of positive zero and a zero is positive zero.
#[verifier::external_body]
pub(crate) fn bits_add(a: u64, b: u64) -> (r: u64)
    ensures
        r == sum_bits(a, b),
        !is_nan_bits(a) && !is_zero_bits(a) && is_zero_bits(b) ==> r == a,
        a == POS_ZERO && is_zero_bits(b) ==> r == POS_ZERO,
{
    let x = <rustc_apfloat::ieee::Double as rustc_apfloat::Float>::from_bits(a as u128);
    let y = <rustc_apfloat::ieee::Double as rustc_apfloat::Float>::from_bits(b as u128);
    let s = rustc_apfloat::Float::add_r(x, y, rustc_apfloat::Round::NearestTiesToEven).value;
    rustc_apfloat::Float::to_bits(s) as u64
}

/// Relies on rustc_apfloat's `Float::sub_r` on `ieee::Double`: binary64
/// subtraction of the two bit patterns, rounded to nearest, ties to even.
/// A difference of a finite value from itself is positive zero.
#[verifier::external_body]
pub(crate) fn bits_sub(a: u64, b: u64) -> (r: u64)
    ensures
        r == diff_bits(a, b),
        a == b && is_finite_bits(a) ==> r == POS_ZERO,
{
    let x = <rustc_apfloat::ieee::Double as rustc_apfloat::Float>::from_bits(a as u128);
    let y = <rustc_apfloat::ieee::Double as rustc_apfloat::Float>::from_bits(b as u128);
    let s = rustc_apfloat::Float::sub_r(x, y, rustc_apfloat::Round::NearestTiesToEven).value;
    rustc_apfloat::Float::to_bits(s) as u64
}

/// Relies on rustc_apfloat's `Float::mul_r` on `ieee::Double`: binary64
/// multiplication of the two bit patterns, rounded to nearest, ties to even.
/// A product with a zero is a zero whenever the other factor is finite, and
/// a product of two positive zeros is positive zero.
#[verifier::external_body]
pub(crate) fn bits_mul(a: u64, b: u64) -> (r: u64)
    ensures
        r == prod_bits(a, b),
        is_finite_bits(a) && is_zero_bits(b) ==> is_zero_bits(r),
        is_zero_bits(a) && is_finite_bits(b) ==> is_zero_bits(r),
        a == POS_ZERO && b == POS_ZERO ==> r == POS_ZERO,
{
    let x = <rustc_apfloat::ieee::Double as rustc_apfloat::Float>::from_bits(a as u128);
    let y = <rustc_apfloat::ieee::Double as rustc_apfloat::Float>::from_bits(b as u128);
    let s = rustc_apfloat::Float::mul_r(x, y, rustc_apfloat::Round::NearestTiesToEven).value;
    rustc_apfloat::Float::to_bits(s) as u64
}

/// Relies on rustc_apfloat's `Float::div_r` on `ieee::Double`: binary64
/// division of the two bit patterns, rounded to nearest, ties to even.
/// A zero divided by anything other than a zero or a NaN is a zero.
#[verifier::external_body]
pub(crate) fn bits_div(a: u64, b: u64) -> (r: u64)
    ensures
        r == quot_bits(a, b),
        is_zero_bits(a) && !is_zero_bits(b) && !is_nan_bits(b) ==> is_zero_bits(r),
{
    let x = <rustc_apfloat::ieee::Double as rustc_apfloat::Float>::from_bits(a as u128);
    let y = <rustc_apfloat::ieee::Double as rustc_apfloat::Float>::from_bits(b as u128);
    let s = rustc_apfloat::Float::div_r(x, y, rustc_apfloat::Round::NearestTiesToEven).value;
    rustc_apfloat::Float::to_bits(s) as u64
}

/// Relies on ieee_apsqrt's `sqrt_accurate` on `u64` bits: the correctly
/// rounded binary64 square root, rounded to nearest, ties to even.
/// The square root of positive zero is positive zero.
#[verifier::external_body]
pub(crate) fn bits_sqrt(a: u64) -> (r: u64)
    ensures
        r == sqrt_bits(a),
        a == POS_ZERO ==> r == POS_ZERO,
{
    ieee_apsqrt::sqrt_accurate(a, rustc_apfloat::Round::NearestTiesToEven).0.value
}

} // verus!
