//! Names for the plain scalar quantities.
//!
//! Each alias stands for the IEEE-754 single-precision bit pattern of the
//! quantity it names; none of them carries an invariant of its own.

use vstd::prelude::*;

verus! {

use crate::single::Bits;

/// Value as in decimal * 100.
pub type Percent = Bits;

/// Value as in decimal * 1e6.
pub type PartsPerMillion = Bits;

/// pH value, 7 is neutral.
pub type PH = Bits;

/// Wort density relative to water.
pub type SpecificGravity = Bits;

/// International bitterness units.
pub type Ibu = Bits;

/// Standard reference method beer colour.
pub type SRMColor = Bits;

/// Carbonation in volumes of dissolved carbon dioxide.
pub type VolumesCO2 = Bits;

/// Alcohol by volume in percent.
pub type Abv = Percent;

/// Temperature.
pub type Celsius = Bits;

/// Volume.
pub type Liters = Bits;

/// Mass.
pub type Kilograms = Bits;

/// Time.
pub type Minutes = Bits;

/// Time.
pub type Days = Bits;

} // verus!
