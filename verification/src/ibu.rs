//! International bitterness units (IBU) for a single hop addition.
//!
//! Inputs: hop mass in kilograms, alpha acid as a percentage (not a
//! fraction), average boil volume in litres, boil time in minutes, and the
//! dimensionless wort gravity.

use vstd::prelude::*;

verus! {

use crate::dimension::Error;
use crate::single::{
    Bits, ONE_BITS, exp_approx, exp_bits, gt_bits, bits_gt, sum_bits, diff_bits, prod_bits,
    quot_bits, add_bits, sub_bits, mul_bits, div_bits,
};
use crate::units::{Ibu, Kilograms, Liters, Minutes, Percent};

/// Bit pattern of 10000: the textbook factor 1000 scaled for hop mass in
/// kilograms instead of grams, together with alpha acid as a percentage
/// number instead of a fraction. The two unit choices belong together.
pub const TINSETH_SCALE: Bits = 0x461C_4000;

/// Bit pattern of 1.65, the coefficient of the bigness factor.
pub const BIGNESS_COEFF: Bits = 0x3FD3_3333;

/// Bit pattern of the natural logarithm of 0.000125, the base of the
/// bigness factor's exponent.
pub const LN_BIGNESS_BASE: Bits = 0xC10F_CB8F;

/// Bit pattern of 4.15, the divisor of the boil time factor.
pub const BOIL_TIME_DIVISOR: Bits = 0x4084_CCCD;

/// Bit pattern of -0.04, the decay rate of the boil time factor.
pub const BOIL_TIME_RATE: Bits = 0xBD23_D70A;

/// Bit pattern of 1.05, the gravity above which the correction factor
/// starts to grow.
pub const HIGH_GRAVITY_THRESHOLD: Bits = 0x3F86_6666;

/// Bit pattern of 2.0, the divisor of the gravity correction excess.
pub const GRAVITY_EXCESS_DIVISOR: Bits = 0x4000_0000;

/// The utilisation factor in single precision: the bigness factor
/// `1.65 * 0.000125^(gravity - 1)`, with the power evaluated as
/// `exp_approx((gravity - 1) * ln 0.000125)`, times the boil time factor
/// `(1 - exp_approx(-0.04 * boil_time)) / 4.15`.
pub open spec fn utilisation_spec(boil_time: Bits, wort_gravity: Bits) -> Bits {
    let bigness = prod_bits(
        BIGNESS_COEFF,
        exp_approx(prod_bits(diff_bits(wort_gravity, ONE_BITS), LN_BIGNESS_BASE)),
    );
    let boil_time_factor = quot_bits(
        diff_bits(ONE_BITS, exp_approx(prod_bits(BOIL_TIME_RATE, boil_time))),
        BOIL_TIME_DIVISOR,
    );
    prod_bits(bigness, boil_time_factor)
}

/// The gravity correction factor in single precision: 1 for gravities up
/// to 1.05, and `1 + (gravity - 1.05) / 2` above. The comparison is
/// strict, and both branches agree at exactly 1.05.
pub open spec fn gravity_correction_spec(gravity: Bits) -> Bits {
    if gt_bits(gravity, HIGH_GRAVITY_THRESHOLD) {
        sum_bits(
            ONE_BITS,
            quot_bits(diff_bits(gravity, HIGH_GRAVITY_THRESHOLD), GRAVITY_EXCESS_DIVISOR),
        )
    } else {
        ONE_BITS
    }
}

/// The Tinseth bitterness in single precision:
/// `10000 * hop_mass * utilisation * alpha_acid / (volume * correction)`,
/// evaluated exactly in this order.
pub open spec fn tinseth_ibu_spec(
    hop_mass: Kilograms,
    alpha_acid: Percent,
    volume: Liters,
    boil_time: Minutes,
    wort_gravity: Bits,
) -> Bits {
    let numerator = prod_bits(
        prod_bits(prod_bits(TINSETH_SCALE, hop_mass), utilisation_spec(boil_time, wort_gravity)),
        alpha_acid,
    );
    let denominator = prod_bits(volume, gravity_correction_spec(wort_gravity));
    quot_bits(numerator, denominator)
}

/// IBU for a single hop addition.
pub trait IbuCalc: Sized {
    /// The bitterness this method computes, or `None` where the method has
    /// no formula.
    spec fn ibu_spec(
        self,
        hop_mass: Kilograms,
        alpha_acid: Percent,
        volume: Liters,
        boil_time: Minutes,
        wort_gravity: Bits,
    ) -> Option<Ibu>;

    /// IBU for a single hop addition: the method's formula where it has
    /// one, and the not-implemented error where it has none — never a
    /// silently made-up number.
    fn ibu(
        self,
        hop_mass: Kilograms,
        alpha_acid: Percent,
        volume: Liters,
        boil_time: Minutes,
        wort_gravity: Bits,
    ) -> (r: Result<Ibu, Error>)
        ensures
            (match self.ibu_spec(hop_mass, alpha_acid, volume, boil_time, wort_gravity) {
                Some(v) => r == (Ok::<Ibu, Error>(v)),
                None => r matches Err(e) && e is NotImplemented,
            }),
    ;
}

/// IBU for a single hop addition.
///
/// Wrapper for different methods. The Tinseth variant carries an inner
/// struct to keep a joint `ibu` interface open for methods that need
/// configuration of their own.
#[derive(Debug, PartialEq, Clone, Copy)]
pub enum Method {
    /// See [`Tinseth`].
    Tinseth(Tinseth),
    Rager,
    Garetz,
    Noonan,
}

impl IbuCalc for Method {
    open spec fn ibu_spec(
        self,
        hop_mass: Kilograms,
        alpha_acid: Percent,
        volume: Liters,
        boil_time: Minutes,
        wort_gravity: Bits,
    ) -> Option<Ibu> {
        match self {
            Method::Tinseth(tinseth) => tinseth.ibu_spec(
                hop_mass,
                alpha_acid,
                volume,
                boil_time,
                wort_gravity,
            ),
            Method::Rager => None,
            Method::Garetz => None,
            Method::Noonan => None,
        }
    }

    fn ibu(
        self,
        hop_mass: Kilograms,
        alpha_acid: Percent,
        volume: Liters,
        boil_time: Minutes,
        wort_gravity: Bits,
    ) -> (r: Result<Ibu, Error>) {
        match self {
            Method::Tinseth(tinseth) => tinseth.ibu(
                hop_mass,
                alpha_acid,
                volume,
                boil_time,
                wort_gravity,
            ),
            Method::Rager => rager_ibu(hop_mass, alpha_acid, volume, boil_time, wort_gravity),
            Method::Garetz => garetz_ibu(hop_mass, alpha_acid, volume, boil_time, wort_gravity),
            Method::Noonan => noonan_ibu(hop_mass, alpha_acid, volume, boil_time, wort_gravity),
        }
    }
}

impl Default for Method {
    /// The method used when no selection is supplied.
    fn default() -> (r: Self)
        ensures
            r == (Method::Tinseth(Tinseth {  })),
    {
        Method::Tinseth(Tinseth {  })
    }
}

/// The Tinseth method for a single hop addition: hop mass times
/// utilisation times alpha acid, against volume corrected for high
/// gravity.
#[derive(Debug, PartialEq, Clone, Copy)]
pub struct Tinseth {}

impl IbuCalc for Tinseth {
    open spec fn ibu_spec(
        self,
        hop_mass: Kilograms,
        alpha_acid: Percent,
        volume: Liters,
        boil_time: Minutes,
        wort_gravity: Bits,
    ) -> Option<Ibu> {
        Some(tinseth_ibu_spec(hop_mass, alpha_acid, volume, boil_time, wort_gravity))
    }

    fn ibu(
        self,
        hop_mass: Kilograms,
        alpha_acid: Percent,
        volume: Liters,
        boil_time: Minutes,
        wort_gravity: Bits,
    ) -> (r: Result<Ibu, Error>) {
        let numerator = mul_bits(
            mul_bits(mul_bits(TINSETH_SCALE, hop_mass), utilisation(boil_time, wort_gravity)),
            alpha_acid,
        );
        let denominator = mul_bits(volume, gravity_correction_factor(wort_gravity));
        Ok(div_bits(numerator, denominator))
    }
}

/// Rager IBU for a single hop addition: the formula is not implemented,
/// and asking for it signals exactly that.
#[allow(unused_variables)]
pub fn rager_ibu(
    hop_mass: Kilograms,
    alpha_acid: Percent,
    volume: Liters,
    boil_time: Minutes,
    wort_gravity: Bits,
) -> (r: Result<Ibu, Error>)
    ensures
        r matches Err(e) && e is NotImplemented,
{
    Err(Error::NotImplemented)
}

/// Garetz IBU for a single hop addition: the formula is not implemented,
/// and asking for it signals exactly that.
#[allow(unused_variables)]
pub fn garetz_ibu(
    hop_mass: Kilograms,
    alpha_acid: Percent,
    volume: Liters,
    boil_time: Minutes,
    wort_gravity: Bits,
) -> (r: Result<Ibu, Error>)
    ensures
        r matches Err(e) && e is NotImplemented,
{
    Err(Error::NotImplemented)
}

/// Noonan IBU for a single hop addition: the formula is not implemented,
/// and asking for it signals exactly that.
#[allow(unused_variables)]
pub fn noonan_ibu(
    hop_mass: Kilograms,
    alpha_acid: Percent,
    volume: Liters,
    boil_time: Minutes,
    wort_gravity: Bits,
) -> (r: Result<Ibu, Error>)
    ensures
        r matches Err(e) && e is NotImplemented,
{
    Err(Error::NotImplemented)
}

/// Continuous approximation of the utilisation factor for a hop addition:
/// the product of the bigness factor and the boil time factor. Total over
/// all inputs; extreme boil times give values outside the unit interval
/// and are not clamped.
pub fn utilisation(boil_time: Minutes, wort_gravity: Bits) -> (r: Bits)
    ensures
        r == utilisation_spec(boil_time, wort_gravity),
{
    let bigness_factor = mul_bits(
        BIGNESS_COEFF,
        exp_bits(mul_bits(sub_bits(wort_gravity, ONE_BITS), LN_BIGNESS_BASE)),
    );
    let boil_time_factor = div_bits(
        sub_bits(ONE_BITS, exp_bits(mul_bits(BOIL_TIME_RATE, boil_time))),
        BOIL_TIME_DIVISOR,
    );
    mul_bits(bigness_factor, boil_time_factor)
}

/// Correction factor for high gravity worts: 1 up to a gravity of 1.05,
/// and `1 + (gravity - 1.05) / 2` above.
pub fn gravity_correction_factor(gravity: Bits) -> (r: Bits)
    ensures
        r == gravity_correction_spec(gravity),
{
    if bits_gt(gravity, HIGH_GRAVITY_THRESHOLD) {
        add_bits(
            ONE_BITS,
            div_bits(sub_bits(gravity, HIGH_GRAVITY_THRESHOLD), GRAVITY_EXCESS_DIVISOR),
        )
    } else {
        ONE_BITS
    }
}

} // verus!
