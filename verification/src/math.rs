//! Scalar layer of the renderer's linear algebra.
//!
//! Every scalar is an IEEE 754 binary32 value carried as its bit pattern in a
//! `u32`, so that the surrounding vector and matrix code can be verified while
//! the rounding arithmetic itself is delegated to outside implementations of
//! the IEEE operations. The results of the rounding operations are named by
//! uninterpreted spec functions (`add_bits` and friends); comparisons and
//! negation have exact specifications, since IEEE 754 defines them directly
//! on the bit patterns.
use vstd::prelude::*;

use rustc_apfloat::Float;
use rustc_apfloat::ieee::Single;

verus! {

/// Bit pattern of 0.0
pub const BITS_ZERO: u32 = 0;

/// Bit pattern of 1.0
pub const BITS_ONE: u32 = 0x3F80_0000;

/// Bit pattern of 2.0
pub const BITS_TWO: u32 = 0x4000_0000;

/// Bit pattern of -1.0
pub const BITS_NEG_ONE: u32 = 0xBF80_0000;

/// Bit pattern of the binary32 value nearest to pi
pub const BITS_PI: u32 = 0x4049_0FDB;

/// Bit pattern of 180.0
pub const BITS_180: u32 = 0x4334_0000;

/// The bits with the sign cleared: the magnitude part of the encoding.
pub open spec fn float_abs_bits(b: u32) -> u32 {
    if b >= 0x8000_0000u32 {
        (b - 0x8000_0000u32) as u32
    } else {
        b
    }
}

/// A binary32 encoding is a NaN exactly when its magnitude bits exceed
/// those of infinity.
pub open spec fn float_is_nan(b: u32) -> bool {
    float_abs_bits(b) > 0x7F80_0000u32
}

/// Order key of a binary32 encoding: non-NaN values ordered by IEEE 754
/// compare in the same way as these integers, and the two zero encodings
/// share the key 0.
pub open spec fn float_key(b: u32) -> int {
    if b >= 0x8000_0000u32 {
        -(float_abs_bits(b) as int)
    } else {
        b as int
    }
}

/// IEEE 754 `<`: false whenever a NaN is involved, the sign-magnitude
/// order of the encodings otherwise.
pub open spec fn lt_bits(a: u32, b: u32) -> bool {
    &&& !float_is_nan(a)
    &&& !float_is_nan(b)
    &&& float_key(a) < float_key(b)
}

/// IEEE 754 `==`: false whenever a NaN is involved; the two zeros are equal.
pub open spec fn eq_bits(a: u32, b: u32) -> bool {
    &&& !float_is_nan(a)
    &&& !float_is_nan(b)
    &&& float_key(a) == float_key(b)
}

/// IEEE 754 negation: the sign bit flips and nothing else changes.
pub open spec fn neg_bits(a: u32) -> u32 {
    if a >= 0x8000_0000u32 {
        (a - 0x8000_0000u32) as u32
    } else {
        (a + 0x8000_0000u32) as u32
    }
}

/// Result of IEEE 754 binary32 addition, round to nearest, ties to even.
pub uninterp spec fn add_bits(a: u32, b: u32) -> u32;

/// Result of IEEE 754 binary32 subtraction, round to nearest, ties to even.
pub uninterp spec fn sub_bits(a: u32, b: u32) -> u32;

/// Result of IEEE 754 binary32 multiplication, round to nearest, ties to even.
pub uninterp spec fn mul_bits(a: u32, b: u32) -> u32;

/// Result of IEEE 754 binary32 division, round to nearest, ties to even.
pub uninterp spec fn div_bits(a: u32, b: u32) -> u32;

/// Result of IEEE 754 binary32 square root, correctly rounded.
pub uninterp spec fn sqrt_bits(a: u32) -> u32;

/// Result of libm's binary32 sine, a pure function of the argument bits.
pub uninterp spec fn sin_bits(a: u32) -> u32;

/// Result of libm's binary32 cosine, a pure function of the argument bits.
pub uninterp spec fn cos_bits(a: u32) -> u32;

/// Result of libm's binary32 tangent, a pure function of the argument bits.
pub uninterp spec fn tan_bits(a: u32) -> u32;

/// Relies on rustc_apfloat::ieee::Single: IEEE 754 binary32 addition with
/// round to nearest, ties to even, computed on the bit patterns; the result
/// is a deterministic function of the operands.
#[verifier::external_body]
pub fn f32_add(a: u32, b: u32) -> (r: u32)
    ensures
        r == add_bits(a, b),
{
    let x = Single::from_bits(a as u128);
    let y = Single::from_bits(b as u128);
    (x + y).value.to_bits() as u32
}

/// Relies on rustc_apfloat::ieee::Single: IEEE 754 binary32 subtraction with
/// round to nearest, ties to even, a deterministic function of the operands.
#[verifier::external_body]
pub fn f32_sub(a: u32, b: u32) -> (r: u32)
    ensures
        r == sub_bits(a, b),
{
    let x = Single::from_bits(a as u128);
    let y = Single::from_bits(b as u128);
    (x - y).value.to_bits() as u32
}

/// Relies on rustc_apfloat::ieee::Single: IEEE 754 binary32 multiplication
/// with round to nearest, ties to even, a deterministic function of the
/// operands.
#[verifier::external_body]
pub fn f32_mul(a: u32, b: u32) -> (r: u32)
    ensures
        r == mul_bits(a, b),
{
    let x = Single::from_bits(a as u128);
    let y = Single::from_bits(b as u128);
    (x * y).value.to_bits() as u32
}

/// Relies on rustc_apfloat::ieee::Single: IEEE 754 binary32 division with
/// round to nearest, ties to even, a deterministic function of the operands.
#[verifier::external_body]
pub fn f32_div(a: u32, b: u32) -> (r: u32)
    ensures
        r == div_bits(a, b),
{
    let x = Single::from_bits(a as u128);
    let y = Single::from_bits(b as u128);
    (x / y).value.to_bits() as u32
}

/// Relies on rustc_apfloat::ieee::Single: IEEE 754 negation is a sign bit
/// flip, quiet even on NaN, so the result is stated exactly.
#[verifier::external_body]
pub fn f32_neg(a: u32) -> (r: u32)
    ensures
        r == neg_bits(a),
{
    let x = Single::from_bits(a as u128);
    (-x).to_bits() as u32
}

/// Relies on rustc_apfloat::ieee::Single: IEEE 754 compare orders non-NaN
/// values by sign and magnitude, treats the two zeros as equal, and reports
/// nothing lower than a NaN, which is what `lt_bits` states on the encodings.
#[verifier::external_body]
pub fn f32_less(a: u32, b: u32) -> (r: bool)
    ensures
        r == lt_bits(a, b),
{
    let x = Single::from_bits(a as u128);
    let y = Single::from_bits(b as u128);
    x < y
}

/// Relies on rustc_apfloat::ieee::Single: IEEE 754 equality holds between
/// non-NaN values of equal sign-magnitude key, never on a NaN, which is what
/// `eq_bits` states on the encodings.
#[verifier::external_body]
pub fn f32_equal(a: u32, b: u32) -> (r: bool)
    ensures
        r == eq_bits(a, b),
{
    let x = Single::from_bits(a as u128);
    let y = Single::from_bits(b as u128);
    x == y
}

/// Relies on libm::sqrtf: the correctly rounded IEEE 754 binary32 square
/// root, a deterministic function of the argument bits.
#[verifier::external_body]
pub fn f32_sqrt(a: u32) -> (r: u32)
    ensures
        r == sqrt_bits(a),
{
    bytemuck::cast(libm::sqrtf(bytemuck::cast(a)))
}

/// Relies on libm::sinf: a pure software implementation, so the result is a
/// deterministic function of the argument bits on every machine.
#[verifier::external_body]
pub fn f32_sin(a: u32) -> (r: u32)
    ensures
        r == sin_bits(a),
{
    bytemuck::cast(libm::sinf(bytemuck::cast(a)))
}

/// Relies on libm::cosf: a pure software implementation, so the result is a
/// deterministic function of the argument bits on every machine.
#[verifier::external_body]
pub fn f32_cos(a: u32) -> (r: u32)
    ensures
        r == cos_bits(a),
{
    bytemuck::cast(libm::cosf(bytemuck::cast(a)))
}

/// Relies on libm::tanf: a pure software implementation, so the result is a
/// deterministic function of the argument bits on every machine.
#[verifier::external_body]
pub fn f32_tan(a: u32) -> (r: u32)
    ensures
        r == tan_bits(a),
{
    bytemuck::cast(libm::tanf(bytemuck::cast(a)))
}

} // verus!
