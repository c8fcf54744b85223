use brew_calculator::concentration::{
    AlcoholByVolume, Concentration, Plato, SpecificGravity, multiply_volume_by_gravity,
    plato_to_specific_gravity, specific_gravity_to_plato,
};
use brew_calculator::dimension::{Dimension, Error};
use brew_calculator::volume::{Litre, Volume};

fn bits(x: f32) -> u32 {
    x.to_bits()
}

fn val(b: u32) -> f32 {
    f32::from_bits(b)
}

/// Reference values from a published Plato / specific-gravity table.
#[test]
fn ext_conversion_values_plato_to_sg() {
    let test_values: Vec<(f32, f32)> = vec![
        //(Plato, SG)
        (0.5, 1.002),
        (2.0, 1.008),
        (6.5, 1.026),
        (15.0, 1.061),
        (39.5, 1.176),
    ];
    for value in test_values {
        let plato = Plato::new(bits(value.0)).unwrap();
        let sg = plato_to_specific_gravity(plato);
        assert!((value.1 - val(sg.value())).abs() < 0.001);
    }
}

/// Reference values from a published Plato / specific-gravity table; the
/// gravity-to-Plato fit is off by a few tenths against the table, so the
/// tolerance is loose.
#[test]
fn ext_conversion_values_sg_to_plato() {
    let test_values: Vec<(f32, f32)> = vec![
        //(Plato, SG)
        (0.5, 1.002),
        (2.0, 1.008),
        (6.5, 1.026),
        (15.0, 1.061),
        (39.5, 1.176),
    ];
    for value in test_values {
        let sg = SpecificGravity::new(bits(value.1)).unwrap();
        let plato = specific_gravity_to_plato(sg);
        assert!((value.0 - val(plato.value())).abs() < 0.5);
    }
}

/// The conversions compute the plain single-precision evaluation of their
/// fits, bit for bit.
#[test]
fn conversions_match_native_single_precision_evaluation() {
    let p = 15.0f32;
    let expected = 1.0f32 + (p / (258.6f32 - ((p / 258.2f32) * 227.1f32)));
    let sg = plato_to_specific_gravity(Plato::new(bits(p)).unwrap());
    assert_eq!(val(sg.value()), expected);

    let v = 1.061f32;
    let v2 = v * v;
    let v3 = v2 * v;
    let expected = ((-616.868f32 + 1111.14f32 * v) - 630.272f32 * v2) + 135.997f32 * v3;
    let plato = specific_gravity_to_plato(SpecificGravity::new(bits(v)).unwrap());
    assert_eq!(val(plato.value()), expected);
}

/// The two conversions are fits that are not exact inverses: a round trip
/// through the other scale only lands near the start, never exactly on it.
#[test]
fn conversion_round_trip_is_inexact() {
    for plato in [0.5f32, 2.0, 6.5, 15.0, 39.5] {
        let forward = plato_to_specific_gravity(Plato::new(bits(plato)).unwrap());
        let back = specific_gravity_to_plato(SpecificGravity::new(forward.value()).unwrap());
        // Loose agreement only; the fits disagree by design.
        assert!((val(back.value()) - plato).abs() < 0.5);
        assert_ne!(val(back.value()), plato);
    }
}

#[test]
fn concentration_add_ops_test() {
    let dens_1 = SpecificGravity::new(bits(1.1)).unwrap();
    let dens_2 = SpecificGravity::new(bits(2.3)).unwrap();
    assert_eq!(val(dens_1.add(dens_2).value()), 3.4f32);
}

#[test]
fn mul_ops_test() {
    let vol = Litre::new(bits(3.0)).unwrap();
    let dens = SpecificGravity::new(bits(1.1)).unwrap();
    assert_eq!(val(multiply_volume_by_gravity(vol, dens).value()), 3.0f32 * 1.1f32);
}

/// Construction succeeds on any non-negative non-NaN value and stores it
/// exactly; NaN and negative values (negative zero included) are rejected.
#[test]
fn construction_invariant() {
    for x in [0.0f32, 1.0, 1.055, 39.5, 1.0e30, f32::INFINITY] {
        let q = SpecificGravity::new(bits(x)).unwrap();
        assert_eq!(val(q.value()), x);
        let p = Plato::new(bits(x)).unwrap();
        assert_eq!(val(p.value()), x);
    }
    for x in [f32::NAN, -f32::NAN, -0.0f32, -1.5, f32::NEG_INFINITY] {
        assert!(matches!(SpecificGravity::new(bits(x)), Err(Error::ValueError(_))));
        assert!(matches!(Plato::new(bits(x)), Err(Error::ValueError(_))));
    }
}

/// Same-kind sums and differences are the plain single-precision sums and
/// differences of the stored values, exactly.
#[test]
fn arithmetic_closure_is_exact() {
    let pairs = [(1.1f32, 2.3f32), (0.0, 0.0), (1.055, 1.015), (39.5, 0.5)];
    for (a, b) in pairs {
        let qa = SpecificGravity::new(bits(a)).unwrap();
        let qb = SpecificGravity::new(bits(b)).unwrap();
        assert_eq!(val(qa.add(qb).value()), a + b);
        assert_eq!(val(qa.sub(qb).value()), a - b);
    }
}

/// Subtraction has no floor at zero: the difference may come out negative
/// without being re-validated.
#[test]
fn subtraction_may_go_negative() {
    let low = SpecificGravity::new(bits(1.0)).unwrap();
    let high = SpecificGravity::new(bits(2.5)).unwrap();
    assert_eq!(val(low.sub(high).value()), -1.5f32);
}

#[test]
fn gravity_scaling_matches_plain_product() {
    let dens = SpecificGravity::new(bits(1.1)).unwrap();
    assert_eq!(val(dens.mul(bits(2.0)).value()), 2.0f32 * 1.1f32);
}

#[test]
fn alcohol_by_volume_wraps_unvalidated() {
    let abv = AlcoholByVolume::new(bits(5.25));
    assert_eq!(val(abv.value()), 5.25f32);
    // Computed outputs are not validated, a negative value passes through.
    let abv = AlcoholByVolume::new(bits(-1.0));
    assert_eq!(val(abv.value()), -1.0f32);
}

#[test]
fn validation_error_description() {
    let err = SpecificGravity::new(bits(f32::NAN)).unwrap_err();
    assert_eq!(err.description(), "ValueError");
}
