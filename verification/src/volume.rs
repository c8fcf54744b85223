//! Volume quantities.

use vstd::prelude::*;

verus! {

use crate::dimension::{Dimension, Error};
use crate::single::{
    Bits, bits_is_nan, bits_is_sign_negative, valid_quantity_bits, sum_bits, prod_bits, add_bits,
    mul_bits,
};

/// A volume quantity with validated construction.
pub trait Volume: Dimension + Sized {
    /// Wrap `value` unchanged. Construction succeeds exactly when `value` is
    /// neither NaN nor negative (sign bit set, negative zero included).
    fn new(value: Bits) -> (r: Result<Self, Error>)
        ensures
            valid_quantity_bits(value) <==> r is Ok,
            r matches Ok(q) ==> q.spec_value() == value,
            r matches Err(e) ==> e is ValueError,
    ;
}

/// A volume in litres; non-negative at construction time.
#[derive(Debug, Clone, Copy)]
pub struct Litre {
    value: Bits,
}

impl Dimension for Litre {
    closed spec fn spec_value(self) -> Bits {
        self.value
    }

    fn value(self) -> (r: Bits) {
        self.value
    }
}

impl Volume for Litre {
    fn new(value: Bits) -> (r: Result<Litre, Error>) {
        if bits_is_nan(value) {
            return Err(Error::ValueError("NaN value".to_string()));
        }
        if bits_is_sign_negative(value) {
            return Err(Error::ValueError("Expected non-negative value".to_string()));
        }
        Ok(Litre { value })
    }
}

impl Litre {
    /// Scale by a dimensionless factor. The result keeps the plain
    /// single-precision product and is not re-validated.
    pub fn mul(self, rhs: Bits) -> (r: Self)
        ensures
            r.spec_value() == prod_bits(self.spec_value(), rhs),
    {
        Litre { value: mul_bits(self.value, rhs) }
    }

    /// Sum of two volumes; the result is not re-validated.
    pub fn add(self, rhs: Litre) -> (r: Self)
        ensures
            r.spec_value() == sum_bits(self.spec_value(), rhs.spec_value()),
    {
        Litre { value: add_bits(self.value, rhs.value) }
    }
}

} // verus!
