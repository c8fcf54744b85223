//! Entry points over plain scalar quantities.

use vstd::prelude::*;

verus! {

use crate::constants::GRAVITY_TO_ALCOHOL_COEFF;
use crate::single::{Bits, diff_bits, prod_bits, sub_bits, mul_bits};
use crate::units::{Abv, Kilograms, Liters, SpecificGravity};

/// Alcohol by volume from the gravity difference: the single-precision
/// value of `(og - current_gravity) * 131.25`.
///
/// No validation happens here; a NaN or negative input propagates into the
/// result under ordinary floating-point semantics.
pub fn abv_from_gravity_diff(og: SpecificGravity, current_gravity: SpecificGravity) -> (r: Abv)
    ensures
        r == prod_bits(diff_bits(og, current_gravity), GRAVITY_TO_ALCOHOL_COEFF),
{
    let gravity_diff: Bits = sub_bits(og, current_gravity);
    mul_bits(gravity_diff, GRAVITY_TO_ALCOHOL_COEFF)
}

/// Strike water volume: the single-precision product of grain weight and
/// mash thickness, the two expressed in mutually consistent units.
pub fn strike_water_volume(grain_weight: Kilograms, mash_thickness: Bits) -> (r: Liters)
    ensures
        r == prod_bits(grain_weight, mash_thickness),
{
    mul_bits(grain_weight, mash_thickness)
}

} // verus!
