//! Fixed coefficients of the brewing formulas.

use vstd::prelude::*;

verus! {

use crate::single::Bits;

/// Bit pattern of 131.25, the fixed coefficient that turns a gravity
/// difference into an alcohol-by-volume percentage.
pub const GRAVITY_TO_ALCOHOL_COEFF: Bits = 0x4303_4000;

} // verus!
