//! IEEE-754 binary32 scalars as `u32` bit patterns.
//!
//! The mesh generators never branch on the numeric value of an attribute:
//! they move scalars around, average them, and evaluate a handful of fixed
//! formulas. That lets the whole library carry its scalars as raw bit
//! patterns and delegate the floating-point arithmetic itself to outside
//! crates: `rustc_apfloat` for the basic IEEE-754 operations (it works
//! directly on bit patterns) and `libm` for the transcendental functions
//! (reached through `bytemuck` bit casts). Each delegated operation is
//! pinned to an uninterpreted name, so contracts elsewhere can state the
//! exact formula a generator evaluates.

use vstd::prelude::*;

use rustc_apfloat::Float;

verus! {

/// Bit pattern of `0.0`.
pub const ZERO_BITS: u32 = 0x0000_0000;

/// Bit pattern of `1.0`.
pub const ONE_BITS: u32 = 0x3F80_0000;

/// Bit pattern of `-1.0`.
pub const NEG_ONE_BITS: u32 = 0xBF80_0000;

/// Bit pattern of `0.5`.
pub const HALF_BITS: u32 = 0x3F00_0000;

/// Bit pattern of `2.0`.
pub const TWO_BITS: u32 = 0x4000_0000;

/// Bit pattern of the binary32 value nearest to pi.
pub const PI_BITS: u32 = 0x4049_0FDB;

/// Bit pattern of the binary32 value nearest to 2*pi. Doubling a binary32
/// value is exact, so this is also the product of [`TWO_BITS`] and
/// [`PI_BITS`].
pub const TAU_BITS: u32 = 0x40C9_0FDB;

/// True of the bit patterns that IEEE-754 classifies as NaN: exponent bits
/// all ones and a non-zero mantissa.
pub open spec fn is_nan_bits(x: u32) -> bool {
    (x & 0x7F80_0000) == 0x7F80_0000 && (x & 0x007F_FFFF) != 0
}

/// The bit pattern of the IEEE-754 sum of the two values given by bit
/// patterns, rounded to nearest, ties to even.
pub uninterp spec fn add_of(a: u32, b: u32) -> u32;

/// The bit pattern of the IEEE-754 product of the two values given by bit
/// patterns, rounded to nearest, ties to even.
pub uninterp spec fn mul_of(a: u32, b: u32) -> u32;

/// The bit pattern of the IEEE-754 quotient of the two values given by bit
/// patterns, rounded to nearest, ties to even.
pub uninterp spec fn div_of(a: u32, b: u32) -> u32;

/// The bit pattern of the square root of the value given by a bit pattern.
pub uninterp spec fn sqrt_of(x: u32) -> u32;

/// The bit pattern of the sine of the value given by a bit pattern.
pub uninterp spec fn sin_of(x: u32) -> u32;

/// The bit pattern of the cosine of the value given by a bit pattern.
pub uninterp spec fn cos_of(x: u32) -> u32;

/// The bit pattern of the arc cosine of the value given by a bit pattern.
pub uninterp spec fn acos_of(x: u32) -> u32;

/// The bit pattern of the angle of the point `(x, y)`, as `atan2(y, x)`
/// computes it from the two values given by bit patterns.
pub uninterp spec fn atan2_of(y: u32, x: u32) -> u32;

/// The bit pattern of the binary32 value nearest to the integer `n`.
pub uninterp spec fn float_of_u32(n: u32) -> u32;

/// Relies on `rustc_apfloat::ieee::Single` addition (`Add`): IEEE-754
/// binary32 addition on bit patterns, rounded to nearest, ties to even. Its
/// result depends on the two operand bit patterns alone, and swapping the
/// operands leaves it unchanged unless both operands are NaN (a NaN operand
/// is propagated, and with two NaN operands the left one is kept).
#[verifier::external_body]
pub(crate) fn add_bits(a: u32, b: u32) -> (r: u32)
    ensures
        r == add_of(a, b),
        !(is_nan_bits(a) && is_nan_bits(b)) ==> r == add_of(b, a),
{
    let x = rustc_apfloat::ieee::Single::from_bits(a as u128);
    let y = rustc_apfloat::ieee::Single::from_bits(b as u128);
    (x + y).value.to_bits() as u32
}

/// Relies on `rustc_apfloat::ieee::Single` multiplication (`Mul`): IEEE-754
/// binary32 multiplication on bit patterns, rounded to nearest, ties to
/// even. Its result depends on the two operand bit patterns alone.
#[verifier::external_body]
pub(crate) fn mul_bits(a: u32, b: u32) -> (r: u32)
    ensures
        r == mul_of(a, b),
{
    let x = rustc_apfloat::ieee::Single::from_bits(a as u128);
    let y = rustc_apfloat::ieee::Single::from_bits(b as u128);
    (x * y).value.to_bits() as u32
}

/// Relies on `rustc_apfloat::ieee::Single` division (`Div`): IEEE-754
/// binary32 division on bit patterns, rounded to nearest, ties to even. Its
/// result depends on the two operand bit patterns alone.
#[verifier::external_body]
pub(crate) fn div_bits(a: u32, b: u32) -> (r: u32)
    ensures
        r == div_of(a, b),
{
    let x = rustc_apfloat::ieee::Single::from_bits(a as u128);
    let y = rustc_apfloat::ieee::Single::from_bits(b as u128);
    (x / y).value.to_bits() as u32
}

/// Relies on `rustc_apfloat::Float::from_u128`: conversion of an unsigned
/// integer to the nearest binary32 value, as `n as f32` rounds it. Its
/// result depends on the integer alone.
#[verifier::external_body]
pub(crate) fn float_bits_of_u32(n: u32) -> (r: u32)
    ensures
        r == float_of_u32(n),
{
    rustc_apfloat::ieee::Single::from_u128(n as u128).value.to_bits() as u32
}

/// Relies on `libm::sqrtf`: the correctly rounded square root of the value
/// whose bit pattern is given. Its result depends on the bit pattern alone.
#[verifier::external_body]
pub(crate) fn sqrt_bits(x: u32) -> (r: u32)
    ensures
        r == sqrt_of(x),
{
    bytemuck::cast(libm::sqrtf(bytemuck::cast(x)))
}

/// Relies on `libm::sinf`: the sine of the value whose bit pattern is
/// given. Its result depends on the bit pattern alone.
#[verifier::external_body]
pub(crate) fn sin_bits(x: u32) -> (r: u32)
    ensures
        r == sin_of(x),
{
    bytemuck::cast(libm::sinf(bytemuck::cast(x)))
}

/// Relies on `libm::cosf`: the cosine of the value whose bit pattern is
/// given. Its result depends on the bit pattern alone.
#[verifier::external_body]
pub(crate) fn cos_bits(x: u32) -> (r: u32)
    ensures
        r == cos_of(x),
{
    bytemuck::cast(libm::cosf(bytemuck::cast(x)))
}

/// Relies on `libm::acosf`: the arc cosine of the value whose bit pattern
/// is given. Its result depends on the bit pattern alone.
#[verifier::external_body]
pub(crate) fn acos_bits(x: u32) -> (r: u32)
    ensures
        r == acos_of(x),
{
    bytemuck::cast(libm::acosf(bytemuck::cast(x)))
}

/// Relies on `libm::atan2f`: the angle of the point `(x, y)` in the range
/// `[-pi, pi]`. Its result depends on the two bit patterns alone.
#[verifier::external_body]
pub(crate) fn atan2_bits(y: u32, x: u32) -> (r: u32)
    ensures
        r == atan2_of(y, x),
{
    bytemuck::cast(libm::atan2f(bytemuck::cast(y), bytemuck::cast(x)))
}

/// True of the bit patterns whose value compares IEEE-754 less than zero:
/// the sign bit is set, the magnitude is non-zero (`-0.0` is not less
/// than zero), and the value is not NaN (a NaN compares less than
/// nothing).
pub open spec fn f_is_neg(x: u32) -> bool {
    x > 0x8000_0000 && !is_nan_bits(x)
}

/// Tests whether the value with the given bit pattern is IEEE-754 less
/// than zero, bit by bit: see [`f_is_neg`].
pub fn f_lt_zero(x: u32) -> (r: bool)
    ensures
        r == f_is_neg(x),
{
    x > 0x8000_0000 && !((x & 0x7F80_0000) == 0x7F80_0000 && (x & 0x007F_FFFF) != 0)
}

/// Negation of a binary32 value: IEEE-754 negation flips the sign bit and
/// leaves every other bit unchanged.
pub open spec fn neg_of(x: u32) -> u32 {
    x ^ 0x8000_0000u32
}

/// The executable counterpart of [`neg_of`].
pub fn neg_bits(x: u32) -> (r: u32)
    ensures
        r == neg_of(x),
{
    x ^ 0x8000_0000
}

} // verus!
