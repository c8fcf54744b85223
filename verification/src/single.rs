//! Single-precision values modelled by their IEEE-754 bit patterns.
//!
//! Every quantity in this crate carries its magnitude as the raw 32-bit
//! pattern of an IEEE-754 single-precision number (1 sign bit, 8 exponent
//! bits, 23 fraction bits). Classification (NaN, sign), negation and
//! ordering are plain bit manipulations, defined and verified right here.
//! The four rounding arithmetic operations are performed by the software
//! floating-point implementation in `rustc_apfloat`; each is trusted under
//! a name for its result, since IEEE-754 arithmetic with round-to-nearest,
//! ties-to-even is a function of the operand bit patterns alone.

use rustc_apfloat::Float;
use vstd::prelude::*;

verus! {

/// Bit pattern of an IEEE-754 single-precision value.
pub type Bits = u32;

/// Bit pattern of 1.0.
pub const ONE_BITS: Bits = 0x3F80_0000;

/// True when the sign bit is set; this includes negative zero.
pub open spec fn sign_of(b: Bits) -> bool {
    b & 0x8000_0000 != 0
}

/// The bit pattern with the sign bit cleared.
pub open spec fn magnitude_of(b: Bits) -> u32 {
    b & 0x7FFF_FFFF
}

/// The eight exponent bits.
pub open spec fn exponent_of(b: Bits) -> u32 {
    (b >> 23) & 0xFF
}

/// The 23 fraction bits.
pub open spec fn fraction_of(b: Bits) -> u32 {
    b & 0x007F_FFFF
}

/// NaN: exponent field all ones with a non-zero fraction field.
pub open spec fn is_nan(b: Bits) -> bool {
    exponent_of(b) == 0xFF && fraction_of(b) != 0
}

/// A quantity may be constructed from `b` exactly when `b` is not NaN and
/// its sign bit is clear.
pub open spec fn valid_quantity_bits(b: Bits) -> bool {
    !is_nan(b) && !sign_of(b)
}

/// The same value with the sign flipped.
pub open spec fn negated(b: Bits) -> Bits {
    b ^ 0x8000_0000
}

/// The IEEE-754 `<` order on two non-NaN values: sign-magnitude comparison,
/// with the two zeroes equal. Any comparison against a NaN is false.
pub open spec fn lt_bits(a: Bits, b: Bits) -> bool {
    if is_nan(a) || is_nan(b) {
        false
    } else if magnitude_of(a) == 0 && magnitude_of(b) == 0 {
        false
    } else if sign_of(a) && sign_of(b) {
        magnitude_of(b) < magnitude_of(a)
    } else if sign_of(a) {
        true
    } else if sign_of(b) {
        false
    } else {
        magnitude_of(a) < magnitude_of(b)
    }
}

/// The IEEE-754 `>` order; false whenever an operand is NaN.
pub open spec fn gt_bits(a: Bits, b: Bits) -> bool {
    lt_bits(b, a)
}

pub fn bits_is_nan(b: Bits) -> (r: bool)
    ensures
        r == is_nan(b),
{
    (b >> 23) & 0xFF == 0xFF && b & 0x007F_FFFF != 0
}

pub fn bits_is_sign_negative(b: Bits) -> (r: bool)
    ensures
        r == sign_of(b),
{
    b & 0x8000_0000 != 0
}

pub fn bits_negate(b: Bits) -> (r: Bits)
    ensures
        r == negated(b),
{
    b ^ 0x8000_0000
}

pub fn bits_lt(a: Bits, b: Bits) -> (r: bool)
    ensures
        r == lt_bits(a, b),
{
    if bits_is_nan(a) || bits_is_nan(b) {
        false
    } else if a & 0x7FFF_FFFF == 0 && b & 0x7FFF_FFFF == 0 {
        false
    } else if bits_is_sign_negative(a) && bits_is_sign_negative(b) {
        b & 0x7FFF_FFFF < a & 0x7FFF_FFFF
    } else if bits_is_sign_negative(a) {
        true
    } else if bits_is_sign_negative(b) {
        false
    } else {
        a & 0x7FFF_FFFF < b & 0x7FFF_FFFF
    }
}

pub fn bits_gt(a: Bits, b: Bits) -> (r: bool)
    ensures
        r == gt_bits(a, b),
{
    bits_lt(b, a)
}

/// The single-precision sum of `a` and `b`, rounded to nearest, ties to even.
pub uninterp spec fn sum_bits(a: Bits, b: Bits) -> Bits;

/// The single-precision difference `a - b`, rounded to nearest, ties to even.
pub uninterp spec fn diff_bits(a: Bits, b: Bits) -> Bits;

/// The single-precision product of `a` and `b`, rounded to nearest, ties to even.
pub uninterp spec fn prod_bits(a: Bits, b: Bits) -> Bits;

/// The single-precision quotient `a / b`, rounded to nearest, ties to even.
pub uninterp spec fn quot_bits(a: Bits, b: Bits) -> Bits;

/// Relies on `rustc_apfloat::ieee::Single::add_r`: the IEEE-754
/// single-precision sum of the operand bit patterns under
/// round-to-nearest-even, a function of the arguments alone.
#[verifier::external_body]
pub(crate) fn add_bits(a: Bits, b: Bits) -> (r: Bits)
    ensures
        r == sum_bits(a, b),
{
    let x = rustc_apfloat::ieee::Single::from_bits(a as u128);
    let y = rustc_apfloat::ieee::Single::from_bits(b as u128);
    (x + y).value.to_bits() as u32
}

/// Relies on `rustc_apfloat::ieee::Single::sub_r`: the IEEE-754
/// single-precision difference of the operand bit patterns under
/// round-to-nearest-even, a function of the arguments alone.
#[verifier::external_body]
pub(crate) fn sub_bits(a: Bits, b: Bits) -> (r: Bits)
    ensures
        r == diff_bits(a, b),
{
    let x = rustc_apfloat::ieee::Single::from_bits(a as u128);
    let y = rustc_apfloat::ieee::Single::from_bits(b as u128);
    (x - y).value.to_bits() as u32
}

/// Relies on `rustc_apfloat::ieee::Single::mul_r`: the IEEE-754
/// single-precision product of the operand bit patterns under
/// round-to-nearest-even, a function of the arguments alone.
#[verifier::external_body]
pub(crate) fn mul_bits(a: Bits, b: Bits) -> (r: Bits)
    ensures
        r == prod_bits(a, b),
{
    let x = rustc_apfloat::ieee::Single::from_bits(a as u128);
    let y = rustc_apfloat::ieee::Single::from_bits(b as u128);
    (x * y).value.to_bits() as u32
}

/// Relies on `rustc_apfloat::ieee::Single::div_r`: the IEEE-754
/// single-precision quotient of the operand bit patterns under
/// round-to-nearest-even, a function of the arguments alone.
#[verifier::external_body]
pub(crate) fn div_bits(a: Bits, b: Bits) -> (r: Bits)
    ensures
        r == quot_bits(a, b),
{
    let x = rustc_apfloat::ieee::Single::from_bits(a as u128);
    let y = rustc_apfloat::ieee::Single::from_bits(b as u128);
    (x / y).value.to_bits() as u32
}

/// Bit pattern of 1/0! rounded to single precision.
pub const INV_FACT_0: Bits = 0x3F80_0000;

/// Bit pattern of 1/1! rounded to single precision.
pub const INV_FACT_1: Bits = 0x3F80_0000;

/// Bit pattern of 1/2! rounded to single precision.
pub const INV_FACT_2: Bits = 0x3F00_0000;

/// Bit pattern of 1/3! rounded to single precision.
pub const INV_FACT_3: Bits = 0x3E2A_AAAB;

/// Bit pattern of 1/4! rounded to single precision.
pub const INV_FACT_4: Bits = 0x3D2A_AAAB;

/// Bit pattern of 1/5! rounded to single precision.
pub const INV_FACT_5: Bits = 0x3C08_8889;

/// Bit pattern of 1/6! rounded to single precision.
pub const INV_FACT_6: Bits = 0x3AB6_0B61;

/// Bit pattern of 1/7! rounded to single precision.
pub const INV_FACT_7: Bits = 0x3950_0D01;

/// Bit pattern of 1/8! rounded to single precision.
pub const INV_FACT_8: Bits = 0x37D0_0D01;

/// Bit pattern of 1/9! rounded to single precision.
pub const INV_FACT_9: Bits = 0x3638_EF1D;

/// Bit pattern of 1/10! rounded to single precision.
pub const INV_FACT_10: Bits = 0x3493_F27E;

/// Bit pattern of 1/11! rounded to single precision.
pub const INV_FACT_11: Bits = 0x32D7_322B;

/// Bit pattern of 1/12! rounded to single precision.
pub const INV_FACT_12: Bits = 0x310F_76C7;

/// Bit pattern of 1/13! rounded to single precision.
pub const INV_FACT_13: Bits = 0x2F30_9231;

/// Bit pattern of 1/14! rounded to single precision.
pub const INV_FACT_14: Bits = 0x2D49_CBA5;

/// Bit pattern of 1/15! rounded to single precision.
pub const INV_FACT_15: Bits = 0x2B57_3F9F;

/// Bit pattern of 1/16! rounded to single precision.
pub const INV_FACT_16: Bits = 0x2957_3F9F;

/// Bit pattern of 1/17! rounded to single precision.
pub const INV_FACT_17: Bits = 0x274A_963C;

/// Bit pattern of 1/18! rounded to single precision.
pub const INV_FACT_18: Bits = 0x2534_13C3;

/// Bit pattern of 1/19! rounded to single precision.
pub const INV_FACT_19: Bits = 0x2317_A4DA;

/// Bit pattern of 1/20! rounded to single precision.
pub const INV_FACT_20: Bits = 0x20F2_A15D;

/// Bit pattern of 1/21! rounded to single precision.
pub const INV_FACT_21: Bits = 0x1EB8_DC78;

/// Bit pattern of 1/22! rounded to single precision.
pub const INV_FACT_22: Bits = 0x1C86_71CB;

/// Bit pattern of 1/23! rounded to single precision.
pub const INV_FACT_23: Bits = 0x1A3B_0DA1;

/// Bit pattern of 1/24! rounded to single precision.
pub const INV_FACT_24: Bits = 0x17F9_6781;

/// Bit pattern of 1/25! rounded to single precision.
pub const INV_FACT_25: Bits = 0x159F_9E67;

/// Bit pattern of 1/26! rounded to single precision.
pub const INV_FACT_26: Bits = 0x1344_7430;

/// Bit pattern of 1/27! rounded to single precision.
pub const INV_FACT_27: Bits = 0x10E8_D58E;

/// Bit pattern of 1/28! rounded to single precision.
pub const INV_FACT_28: Bits = 0x0E85_0C51;

/// Bit pattern of 1/29! rounded to single precision.
pub const INV_FACT_29: Bits = 0x0C12_CFCC;

/// Bit pattern of 1/30! rounded to single precision.
pub const INV_FACT_30: Bits = 0x099C_9963;

/// One Horner step `c + x * p` in single precision.
pub open spec fn horner_step(c: Bits, x: Bits, p: Bits) -> Bits {
    sum_bits(c, prod_bits(x, p))
}

/// The degree-30 Maclaurin polynomial of the exponential function,
/// evaluated at `x` by Horner's rule in single precision.
pub open spec fn exp_poly(x: Bits) -> Bits {
    let p = INV_FACT_30;
    let p = horner_step(INV_FACT_29, x, p);
    let p = horner_step(INV_FACT_28, x, p);
    let p = horner_step(INV_FACT_27, x, p);
    let p = horner_step(INV_FACT_26, x, p);
    let p = horner_step(INV_FACT_25, x, p);
    let p = horner_step(INV_FACT_24, x, p);
    let p = horner_step(INV_FACT_23, x, p);
    let p = horner_step(INV_FACT_22, x, p);
    let p = horner_step(INV_FACT_21, x, p);
    let p = horner_step(INV_FACT_20, x, p);
    let p = horner_step(INV_FACT_19, x, p);
    let p = horner_step(INV_FACT_18, x, p);
    let p = horner_step(INV_FACT_17, x, p);
    let p = horner_step(INV_FACT_16, x, p);
    let p = horner_step(INV_FACT_15, x, p);
    let p = horner_step(INV_FACT_14, x, p);
    let p = horner_step(INV_FACT_13, x, p);
    let p = horner_step(INV_FACT_12, x, p);
    let p = horner_step(INV_FACT_11, x, p);
    let p = horner_step(INV_FACT_10, x, p);
    let p = horner_step(INV_FACT_9, x, p);
    let p = horner_step(INV_FACT_8, x, p);
    let p = horner_step(INV_FACT_7, x, p);
    let p = horner_step(INV_FACT_6, x, p);
    let p = horner_step(INV_FACT_5, x, p);
    let p = horner_step(INV_FACT_4, x, p);
    let p = horner_step(INV_FACT_3, x, p);
    let p = horner_step(INV_FACT_2, x, p);
    let p = horner_step(INV_FACT_1, x, p);
    horner_step(INV_FACT_0, x, p)
}

/// The exponential of `x`, approximated by `exp_poly`. A negative argument
/// goes through the reciprocal of the polynomial at `-x`, which keeps every
/// term of the evaluation non-negative; a NaN argument propagates.
pub open spec fn exp_approx(x: Bits) -> Bits {
    if sign_of(x) {
        quot_bits(ONE_BITS, exp_poly(negated(x)))
    } else {
        exp_poly(x)
    }
}

fn exp_poly_exec(x: Bits) -> (r: Bits)
    ensures
        r == exp_poly(x),
{
    let p: Bits = INV_FACT_30;
    let p: Bits = add_bits(INV_FACT_29, mul_bits(x, p));
    let p: Bits = add_bits(INV_FACT_28, mul_bits(x, p));
    let p: Bits = add_bits(INV_FACT_27, mul_bits(x, p));
    let p: Bits = add_bits(INV_FACT_26, mul_bits(x, p));
    let p: Bits = add_bits(INV_FACT_25, mul_bits(x, p));
    let p: Bits = add_bits(INV_FACT_24, mul_bits(x, p));
    let p: Bits = add_bits(INV_FACT_23, mul_bits(x, p));
    let p: Bits = add_bits(INV_FACT_22, mul_bits(x, p));
    let p: Bits = add_bits(INV_FACT_21, mul_bits(x, p));
    let p: Bits = add_bits(INV_FACT_20, mul_bits(x, p));
    let p: Bits = add_bits(INV_FACT_19, mul_bits(x, p));
    let p: Bits = add_bits(INV_FACT_18, mul_bits(x, p));
    let p: Bits = add_bits(INV_FACT_17, mul_bits(x, p));
    let p: Bits = add_bits(INV_FACT_16, mul_bits(x, p));
    let p: Bits = add_bits(INV_FACT_15, mul_bits(x, p));
    let p: Bits = add_bits(INV_FACT_14, mul_bits(x, p));
    let p: Bits = add_bits(INV_FACT_13, mul_bits(x, p));
    let p: Bits = add_bits(INV_FACT_12, mul_bits(x, p));
    let p: Bits = add_bits(INV_FACT_11, mul_bits(x, p));
    let p: Bits = add_bits(INV_FACT_10, mul_bits(x, p));
    let p: Bits = add_bits(INV_FACT_9, mul_bits(x, p));
    let p: Bits = add_bits(INV_FACT_8, mul_bits(x, p));
    let p: Bits = add_bits(INV_FACT_7, mul_bits(x, p));
    let p: Bits = add_bits(INV_FACT_6, mul_bits(x, p));
    let p: Bits = add_bits(INV_FACT_5, mul_bits(x, p));
    let p: Bits = add_bits(INV_FACT_4, mul_bits(x, p));
    let p: Bits = add_bits(INV_FACT_3, mul_bits(x, p));
    let p: Bits = add_bits(INV_FACT_2, mul_bits(x, p));
    let p: Bits = add_bits(INV_FACT_1, mul_bits(x, p));
    add_bits(INV_FACT_0, mul_bits(x, p))
}

/// Single-precision approximation of the exponential function.
pub fn exp_bits(x: Bits) -> (r: Bits)
    ensures
        r == exp_approx(x),
{
    if bits_is_sign_negative(x) {
        let p = exp_poly_exec(bits_negate(x));
        div_bits(ONE_BITS, p)
    } else {
        exp_poly_exec(x)
    }
}

} // verus!
