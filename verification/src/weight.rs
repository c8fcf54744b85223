//! Mass quantities.

use vstd::prelude::*;

verus! {

use crate::dimension::{Dimension, Error};
use crate::single::{
    Bits, bits_is_nan, bits_is_sign_negative, valid_quantity_bits, sum_bits, diff_bits, prod_bits,
    add_bits, sub_bits, mul_bits,
};

/// A mass quantity with validated construction.
pub trait Weight: Dimension + Sized {
    /// Wrap `value` unchanged. Construction succeeds exactly when `value` is
    /// neither NaN nor negative (sign bit set, negative zero included).
    fn new(value: Bits) -> (r: Result<Self, Error>)
        ensures
            valid_quantity_bits(value) <==> r is Ok,
            r matches Ok(q) ==> q.spec_value() == value,
            r matches Err(e) ==> e is ValueError,
    ;
}

/// A mass in kilograms; non-negative at construction time.
#[derive(Debug, Clone, Copy)]
pub struct Kilogram {
    value: Bits,
}

impl Dimension for Kilogram {
    closed spec fn spec_value(self) -> Bits {
        self.value
    }

    fn value(self) -> (r: Bits) {
        self.value
    }
}

impl Weight for Kilogram {
    fn new(value: Bits) -> (r: Result<Kilogram, Error>) {
        if bits_is_nan(value) {
            return Err(Error::ValueError("NaN value".to_string()));
        }
        if bits_is_sign_negative(value) {
            return Err(Error::ValueError("Expected non-negative value".to_string()));
        }
        Ok(Kilogram { value })
    }
}

impl Kilogram {
    /// Scale by a dimensionless factor. The result keeps the plain
    /// single-precision product and is not re-validated.
    pub fn mul(self, rhs: Bits) -> (r: Self)
        ensures
            r.spec_value() == prod_bits(self.spec_value(), rhs),
    {
        Kilogram { value: mul_bits(self.value, rhs) }
    }

    /// Sum of two masses; the result is not re-validated.
    pub fn add(self, rhs: Kilogram) -> (r: Self)
        ensures
            r.spec_value() == sum_bits(self.spec_value(), rhs.spec_value()),
    {
        Kilogram { value: add_bits(self.value, rhs.value) }
    }

    /// Difference of two masses, with no floor at zero: the result may
    /// carry a negative value that was never re-validated.
    pub fn sub(self, rhs: Kilogram) -> (r: Self)
        ensures
            r.spec_value() == diff_bits(self.spec_value(), rhs.spec_value()),
    {
        Kilogram { value: sub_bits(self.value, rhs.value) }
    }
}

} // verus!
