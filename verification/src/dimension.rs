//! Shared machinery of the quantity types: the `Dimension` accessor trait,
//! the `DimensionLess` marker, and the error type of the calculator.

use vstd::prelude::*;

verus! {

use crate::single::Bits;

/// A physical quantity wrapping the bit pattern of its magnitude.
pub trait Dimension: Sized {
    /// The wrapped bit pattern, for specifications.
    spec fn spec_value(self) -> Bits;

    /// Read the wrapped bit pattern.
    fn value(self) -> (r: Bits)
        ensures
            r == self.spec_value(),
    ;
}

/// Marker for quantities that carry no physical dimension.
pub trait DimensionLess {}

/// Everything that can go wrong in the calculator.
#[derive(Debug, Clone, PartialEq)]
pub enum Error {
    /// A quantity was constructed from a NaN or negative value. Carries a
    /// description of the rejected input.
    ValueError(String),
    /// The selected bitterness method has no formula.
    NotImplemented,
}

impl Error {
    /// Short description of the error kind.
    pub fn description(&self) -> (r: &'static str)
        ensures
            self is ValueError ==> r@ == "ValueError"@,
            self is NotImplemented ==> r@ == "NotImplemented"@,
    {
        match self {
            Error::ValueError(_) => "ValueError",
            Error::NotImplemented => "NotImplemented",
        }
    }
}

} // verus!
