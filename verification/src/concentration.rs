//! The two wort-density scales, specific gravity and degrees Plato, with
//! validated construction, same-kind arithmetic, and the empirical
//! conversions between the scales.

use vstd::prelude::*;

verus! {

use crate::dimension::{Dimension, DimensionLess, Error};
use crate::single::{
    Bits, ONE_BITS, bits_is_nan, bits_is_sign_negative, valid_quantity_bits, sum_bits, diff_bits,
    prod_bits, quot_bits, add_bits, sub_bits, mul_bits, div_bits,
};
use crate::volume::Litre;

/// A density-scale quantity with validated construction.
pub trait Concentration: Dimension + DimensionLess + Sized {
    /// Wrap `value` unchanged. Construction succeeds exactly when `value` is
    /// neither NaN nor negative (sign bit set, negative zero included).
    fn new(value: Bits) -> (r: Result<Self, Error>)
        ensures
            valid_quantity_bits(value) <==> r is Ok,
            r matches Ok(q) ==> q.spec_value() == value,
            r matches Err(e) ==> e is ValueError,
    ;
}

/// Wort density relative to water; dimensionless, non-negative at
/// construction time.
#[derive(Debug, Clone, Copy)]
pub struct SpecificGravity {
    value: Bits,
}

impl Dimension for SpecificGravity {
    closed spec fn spec_value(self) -> Bits {
        self.value
    }

    fn value(self) -> (r: Bits) {
        self.value
    }
}

impl DimensionLess for SpecificGravity {

}

impl Concentration for SpecificGravity {
    fn new(value: Bits) -> (r: Result<Self, Error>) {
        if bits_is_nan(value) {
            return Err(Error::ValueError("NaN value".to_string()));
        }
        if bits_is_sign_negative(value) {
            return Err(Error::ValueError("Expected non-negative value".to_string()));
        }
        Ok(SpecificGravity { value })
    }
}

impl SpecificGravity {
    /// Sum of two gravities. The result keeps the plain single-precision
    /// sum and is not re-validated.
    pub fn add(self, other: Self) -> (r: Self)
        ensures
            r.spec_value() == sum_bits(self.spec_value(), other.spec_value()),
    {
        SpecificGravity { value: add_bits(self.value, other.value) }
    }

    /// Difference of two gravities, with no floor at zero: the result may
    /// carry a negative value that was never re-validated.
    pub fn sub(self, other: Self) -> (r: Self)
        ensures
            r.spec_value() == diff_bits(self.spec_value(), other.spec_value()),
    {
        SpecificGravity { value: sub_bits(self.value, other.value) }
    }

    /// Scale by a dimensionless factor.
    pub fn mul(self, rhs: Bits) -> (r: Self)
        ensures
            r.spec_value() == prod_bits(rhs, self.spec_value()),
    {
        SpecificGravity { value: mul_bits(rhs, self.value) }
    }
}

/// Wort density in degrees Plato; dimensionless, non-negative at
/// construction time.
#[derive(Debug, Clone, Copy)]
pub struct Plato {
    value: Bits,
}

impl Dimension for Plato {
    closed spec fn spec_value(self) -> Bits {
        self.value
    }

    fn value(self) -> (r: Bits) {
        self.value
    }
}

impl DimensionLess for Plato {

}

impl Concentration for Plato {
    fn new(value: Bits) -> (r: Result<Self, Error>) {
        if bits_is_nan(value) {
            return Err(Error::ValueError("NaN value".to_string()));
        }
        if bits_is_sign_negative(value) {
            return Err(Error::ValueError("Expected non-negative value".to_string()));
        }
        Ok(Plato { value })
    }
}

/// Computed output of the alcohol formula; a plain wrapper constructed
/// without validation.
#[derive(Debug, Clone, Copy)]
pub struct AlcoholByVolume {
    value: Bits,
}

impl AlcoholByVolume {
    /// The wrapped bit pattern, for specifications.
    pub closed spec fn spec_value(self) -> Bits {
        self.value
    }

    /// Wrap `value` unchanged; computed outputs are not validated.
    pub fn new(value: Bits) -> (r: AlcoholByVolume)
        ensures
            r.spec_value() == value,
    {
        AlcoholByVolume { value }
    }

    /// Read the wrapped bit pattern.
    pub fn value(self) -> (r: Bits)
        ensures
            r == self.spec_value(),
    {
        self.value
    }
}

/// Bit pattern of -616.868, the constant term of the cubic fit.
pub const SG_TO_PLATO_C0: Bits = 0xC41A_378D;

/// Bit pattern of 1111.14, the linear coefficient of the cubic fit.
pub const SG_TO_PLATO_C1: Bits = 0x448A_E47B;

/// Bit pattern of 630.272, the quadratic coefficient of the cubic fit.
pub const SG_TO_PLATO_C2: Bits = 0x441D_9168;

/// Bit pattern of 135.997, the cubic coefficient of the cubic fit.
pub const SG_TO_PLATO_C3: Bits = 0x4307_FF3B;

/// Bit pattern of 258.6 in the Plato-to-gravity fit.
pub const PLATO_TO_SG_D0: Bits = 0x4381_4CCD;

/// Bit pattern of 258.2 in the Plato-to-gravity fit.
pub const PLATO_TO_SG_D1: Bits = 0x4381_199A;

/// Bit pattern of 227.1 in the Plato-to-gravity fit.
pub const PLATO_TO_SG_D2: Bits = 0x4363_199A;

/// Degrees Plato from a specific gravity `v` by the cubic fit
/// `-616.868 + 1111.14 v - 630.272 v^2 + 135.997 v^3`, evaluated in single
/// precision exactly in this order.
pub open spec fn plato_of_sg(v: Bits) -> Bits {
    let v2 = prod_bits(v, v);
    let v3 = prod_bits(v2, v);
    sum_bits(
        diff_bits(sum_bits(SG_TO_PLATO_C0, prod_bits(SG_TO_PLATO_C1, v)), prod_bits(SG_TO_PLATO_C2, v2)),
        prod_bits(SG_TO_PLATO_C3, v3),
    )
}

/// Specific gravity from degrees Plato `p` by the fit
/// `1 + p / (258.6 - (p / 258.2) * 227.1)`, evaluated in single precision
/// exactly in this order. Near `p` of about 294 the denominator crosses
/// zero and the quotient follows ordinary floating-point semantics; the fit
/// keeps that behaviour unguarded.
pub open spec fn sg_of_plato(p: Bits) -> Bits {
    sum_bits(
        ONE_BITS,
        quot_bits(p, diff_bits(PLATO_TO_SG_D0, prod_bits(quot_bits(p, PLATO_TO_SG_D1), PLATO_TO_SG_D2))),
    )
}

/// Convert a specific gravity to degrees Plato.
///
/// Total: the cubic fit is applied to any gravity, also far outside the
/// range where the fit is meaningful. The pair of conversions does not
/// round-trip exactly; the polynomial fits disagree by a few tenths of a
/// degree Plato at typical concentrations, and that error is part of the
/// fits, not something to correct here.
pub fn specific_gravity_to_plato(concentration_sg: SpecificGravity) -> (r: Plato)
    ensures
        r.spec_value() == plato_of_sg(concentration_sg.spec_value()),
{
    let v = concentration_sg.value;
    let v2 = mul_bits(v, v);
    let v3 = mul_bits(v2, v);
    let low = add_bits(SG_TO_PLATO_C0, mul_bits(SG_TO_PLATO_C1, v));
    let cubic = sub_bits(low, mul_bits(SG_TO_PLATO_C2, v2));
    Plato { value: add_bits(cubic, mul_bits(SG_TO_PLATO_C3, v3)) }
}

/// Convert degrees Plato to a specific gravity. Total, and not an exact
/// inverse of `specific_gravity_to_plato`; see there.
pub fn plato_to_specific_gravity(concentration_plato: Plato) -> (r: SpecificGravity)
    ensures
        r.spec_value() == sg_of_plato(concentration_plato.spec_value()),
{
    let p = concentration_plato.value;
    let scaled = mul_bits(div_bits(p, PLATO_TO_SG_D1), PLATO_TO_SG_D2);
    SpecificGravity { value: add_bits(ONE_BITS, div_bits(p, sub_bits(PLATO_TO_SG_D0, scaled))) }
}

/// The one admitted cross-kind pairing: a volume scaled by a dimensionless
/// gravity factor stays a volume.
pub fn multiply_volume_by_gravity(volume: Litre, gravity: SpecificGravity) -> (r: Litre)
    ensures
        r.spec_value() == prod_bits(volume.spec_value(), gravity.spec_value()),
{
    volume.mul(gravity.value())
}

} // verus!
