use tacd::ieee754::{greater_than, less_than, not_a_number};

fn samples() -> Vec<f32> {
    vec![
        0.0,
        -0.0,
        1.0,
        -1.0,
        5.0,
        48.0,
        48.000004,
        47.999996,
        -0.99999994,
        -1.0000001,
        4.9999995,
        5.0000005,
        1.0e-45,
        -1.0e-45,
        1.17549435e-38,
        1.1754942e-38,
        3.4028235e38,
        -3.4028235e38,
        f32::INFINITY,
        f32::NEG_INFINITY,
        f32::NAN,
        f32::from_bits(0xffc0_0001),
        0.1,
        -0.1,
        123456.79,
        -123456.79,
    ]
}

#[test]
fn greater_than_agrees_with_the_hardware_on_all_pairs() {
    for a in samples() {
        for b in samples() {
            assert_eq!(greater_than(a.to_bits(), b.to_bits()), a > b, "{a} > {b}");
        }
    }
}

#[test]
fn less_than_agrees_with_the_hardware_on_all_pairs() {
    for a in samples() {
        for b in samples() {
            assert_eq!(less_than(a.to_bits(), b.to_bits()), a < b, "{a} < {b}");
        }
    }
}

#[test]
fn not_a_number_agrees_with_the_hardware() {
    for a in samples() {
        assert_eq!(not_a_number(a.to_bits()), a.is_nan(), "{a}");
    }
}

#[test]
fn greater_than_agrees_with_the_hardware_across_bit_patterns() {
    // A stride that is odd and large walks through all exponents and signs.
    let mut a: u32 = 0;
    for _ in 0..2000 {
        let mut b: u32 = 0x1234_5678;
        for _ in 0..200 {
            let (fa, fb) = (f32::from_bits(a), f32::from_bits(b));
            assert_eq!(greater_than(a, b), fa > fb, "{a:#x} > {b:#x}");
            assert_eq!(less_than(a, b), fa < fb, "{a:#x} < {b:#x}");
            b = b.wrapping_add(0x0147_ae15);
        }
        a = a.wrapping_add(0x0020_c49b);
    }
}

#[test]
fn the_two_zeros_are_equal() {
    let (plus, minus) = (0.0f32.to_bits(), (-0.0f32).to_bits());
    assert!(!greater_than(plus, minus));
    assert!(!greater_than(minus, plus));
    assert!(!less_than(plus, minus));
    assert!(!less_than(minus, plus));
}

#[test]
fn nothing_compares_with_not_a_number() {
    let nan = f32::NAN.to_bits();
    assert!(!greater_than(nan, 0));
    assert!(!greater_than(0, nan));
    assert!(!less_than(nan, 0));
    assert!(!less_than(0, nan));
    assert!(!greater_than(nan, nan));
}

#[test]
fn infinities_bound_all_numbers() {
    let inf = f32::INFINITY.to_bits();
    let neg_inf = f32::NEG_INFINITY.to_bits();
    let max = f32::MAX.to_bits();
    let min = f32::MIN.to_bits();
    assert!(greater_than(inf, max));
    assert!(less_than(neg_inf, min));
    assert!(greater_than(inf, neg_inf));
    assert!(!greater_than(inf, inf));
}
