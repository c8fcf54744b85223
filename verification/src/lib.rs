//! Brew calculator: typed brewing quantities and the calculations on them.
//!
//! The crate models each physical quantity (specific gravity, degrees Plato,
//! litres, kilograms, alcohol by volume) as a validated wrapper around the
//! IEEE-754 single-precision bit pattern of its magnitude, converts between
//! the two wort-density scales, and computes alcohol by volume and Tinseth
//! bitterness from validated inputs.

pub mod calculations;
pub mod concentration;
pub mod constants;
pub mod dimension;
pub mod ibu;
pub mod single;
pub mod units;
pub mod utils;
pub mod volume;
pub mod weight;
