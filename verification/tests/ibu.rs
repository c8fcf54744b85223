use brew_calculator::dimension::Error;
use brew_calculator::ibu::{
    IbuCalc, Method, Tinseth, garetz_ibu, gravity_correction_factor, noonan_ibu, rager_ibu,
    utilisation,
};

fn bits(x: f32) -> u32 {
    x.to_bits()
}

fn val(b: u32) -> f32 {
    f32::from_bits(b)
}

#[test]
fn test_utilisation() {
    let calc_util = val(utilisation(bits(60.0), bits(1.058)));
    assert!((calc_util - 0.211).abs() < 0.005);

    let calc_util = val(utilisation(bits(15.0), bits(1.058)));
    assert!((calc_util - 0.105).abs() < 0.005);
}

#[test]
fn test_gravity_correction_factor() {
    let calc_correction = val(gravity_correction_factor(bits(1.058)));
    assert!((calc_correction - 1.004).abs() < 0.005);
}

#[test]
fn test_tinseth_ibu() {
    let calc_ibu = Tinseth {}
        .ibu(bits(0.007), bits(8.5), bits(22.73), bits(15.0), bits(1.058))
        .unwrap();
    assert!((val(calc_ibu) - 2.74).abs() < 0.05);
}

/// At a gravity of exactly 1.05 the comparison is strict and the factor is
/// exactly one; above it, the factor is exactly `1 + (g - 1.05) / 2`.
#[test]
fn gravity_correction_boundary() {
    assert_eq!(val(gravity_correction_factor(bits(1.05))), 1.0f32);
    assert_eq!(val(gravity_correction_factor(bits(1.0))), 1.0f32);
    assert_eq!(
        val(gravity_correction_factor(bits(1.2))),
        1.0f32 + (1.2f32 - 1.05f32) / 2.0f32,
    );
    assert_eq!(
        val(gravity_correction_factor(bits(1.058))),
        1.0f32 + (1.058f32 - 1.05f32) / 2.0f32,
    );
}

/// A zero-minute boil contributes no bitterness at all.
#[test]
fn utilisation_vanishes_without_boil() {
    assert_eq!(val(utilisation(bits(0.0), bits(1.058))), 0.0f32);
}

/// The methods without a formula signal not-implemented on every call,
/// never a number.
#[test]
fn unimplemented_methods_signal_not_implemented() {
    let args = (bits(0.007), bits(8.5), bits(22.73), bits(15.0), bits(1.058));
    for method in [Method::Rager, Method::Garetz, Method::Noonan] {
        for _ in 0..2 {
            let r = method.ibu(args.0, args.1, args.2, args.3, args.4);
            assert!(matches!(r, Err(Error::NotImplemented)));
        }
    }
    assert!(matches!(
        rager_ibu(args.0, args.1, args.2, args.3, args.4),
        Err(Error::NotImplemented)
    ));
    assert!(matches!(
        garetz_ibu(args.0, args.1, args.2, args.3, args.4),
        Err(Error::NotImplemented)
    ));
    assert!(matches!(
        noonan_ibu(args.0, args.1, args.2, args.3, args.4),
        Err(Error::NotImplemented)
    ));
    assert_eq!(Error::NotImplemented.description(), "NotImplemented");
}

/// Dispatch through the method enum reaches the Tinseth formula.
#[test]
fn method_dispatch_matches_tinseth() {
    let direct = Tinseth {}
        .ibu(bits(0.007), bits(8.5), bits(22.73), bits(15.0), bits(1.058))
        .unwrap();
    let dispatched = Method::Tinseth(Tinseth {})
        .ibu(bits(0.007), bits(8.5), bits(22.73), bits(15.0), bits(1.058))
        .unwrap();
    assert_eq!(direct, dispatched);
}

#[test]
fn default_method_is_tinseth() {
    assert_eq!(Method::default(), Method::Tinseth(Tinseth {}));
}
