//! Exact comparisons on IEEE-754 `f64` bit patterns.
//!
//! The engine's domain policy compares operands against zero with exact
//! floating-point equality — no epsilon tolerance.  Verified code does not
//! touch the floating-point type itself; it reads the 64-bit encoding of a
//! value (sign in bit 63, exponent in bits 62..52, fraction in bits 51..0)
//! and decides those exact comparisons as plain bit tests.  The front ends
//! obtain the encoding with `f64::to_bits` and hand it to the engine.

use vstd::prelude::*;

verus! {

/// Mask that clears the sign bit.
pub const MAGNITUDE_MASK: u64 = 0x7FFF_FFFF_FFFF_FFFF;

/// Mask of the eleven exponent bits.
pub const EXPONENT_MASK: u64 = 0x7FF0_0000_0000_0000;

/// Mask of the fifty-two fraction bits.
pub const FRACTION_MASK: u64 = 0x000F_FFFF_FFFF_FFFF;

/// Mask of the sign bit.
pub const SIGN_MASK: u64 = 0x8000_0000_0000_0000;

/// The encoded value is positive or negative zero: every bit but the sign is
/// clear.  This is exactly the set of encodings for which `v == 0.0` holds.
pub open spec fn is_zero(bits: u64) -> bool {
    bits & MAGNITUDE_MASK == 0
}

/// The encoded value is a NaN: exponent all ones and a nonzero fraction.
/// A NaN compares unequal to everything, itself included.
pub open spec fn is_nan(bits: u64) -> bool {
    bits & EXPONENT_MASK == EXPONENT_MASK && bits & FRACTION_MASK != 0
}

/// The sign bit of the encoding is set.
pub open spec fn sign_bit(bits: u64) -> bool {
    bits & SIGN_MASK != 0
}

/// The encoded value compares strictly below zero (`v < 0.0`): negative
/// sign, not a zero (negative zero compares equal to zero) and not a NaN.
pub open spec fn lt_zero(bits: u64) -> bool {
    sign_bit(bits) && !is_zero(bits) && !is_nan(bits)
}

/// The encoded value compares at or below zero (`v <= 0.0`).
pub open spec fn le_zero(bits: u64) -> bool {
    lt_zero(bits) || is_zero(bits)
}

/// The two encoded values compare equal under floating-point equality
/// (`x == y`): both zeros of either sign, or — since every non-zero,
/// non-NaN `f64` value has exactly one encoding — equal bit patterns that
/// are not a NaN.
pub open spec fn float_eq(x: u64, y: u64) -> bool {
    if is_nan(x) || is_nan(y) {
        false
    } else if is_zero(x) && is_zero(y) {
        true
    } else {
        x == y
    }
}

/// Decides `v == 0.0` on the encoding of `v`.
pub fn check_zero(bits: u64) -> (r: bool)
    ensures
        r == is_zero(bits),
{
    bits & MAGNITUDE_MASK == 0
}

/// Decides whether the encoding is a NaN.
pub fn check_nan(bits: u64) -> (r: bool)
    ensures
        r == is_nan(bits),
{
    bits & EXPONENT_MASK == EXPONENT_MASK && bits & FRACTION_MASK != 0
}

/// Decides `v < 0.0` on the encoding of `v`.
pub fn check_lt_zero(bits: u64) -> (r: bool)
    ensures
        r == lt_zero(bits),
{
    bits & SIGN_MASK != 0 && !check_zero(bits) && !check_nan(bits)
}

/// Decides `v <= 0.0` on the encoding of `v`.
pub fn check_le_zero(bits: u64) -> (r: bool)
    ensures
        r == le_zero(bits),
{
    check_lt_zero(bits) || check_zero(bits)
}

/// Decides `x == y` on the encodings of `x` and `y`.
pub fn check_float_eq(x: u64, y: u64) -> (r: bool)
    ensures
        r == float_eq(x, y),
{
    if check_nan(x) || check_nan(y) {
        false
    } else if check_zero(x) && check_zero(y) {
        true
    } else {
        x == y
    }
}

} // verus!
