use brew_calculator::calculations::{abv_from_gravity_diff, strike_water_volume};

fn bits(x: f32) -> u32 {
    x.to_bits()
}

fn val(b: u32) -> f32 {
    f32::from_bits(b)
}

#[test]
fn test_abv_from_gravity_diff() {
    let test_values: Vec<(f32, f32, f32)> = vec![
        //(OG, FG, AlcoholByVolume)
        (1.055, 1.015, 5.25),
    ];
    for value in test_values {
        let sg = value.0;
        let og = value.1;
        let abv = val(abv_from_gravity_diff(bits(sg), bits(og)));
        println!("{}", abv);
        assert!((value.2 - abv).abs() < 0.001);
    }
}

#[test]
fn abv_reference_case() {
    let abv = val(abv_from_gravity_diff(bits(1.055), bits(1.015)));
    assert!((abv - 5.25).abs() < 0.001);
    // The exact single-precision evaluation of (1.055 - 1.015) * 131.25.
    assert_eq!(abv, (1.055f32 - 1.015f32) * 131.25f32);
}

#[test]
fn strike_water_volume_is_the_plain_product() {
    let vol = val(strike_water_volume(bits(5.0), bits(3.0)));
    assert_eq!(vol, 15.0f32);
    let vol = val(strike_water_volume(bits(4.2), bits(2.9)));
    assert_eq!(vol, 4.2f32 * 2.9f32);
}
