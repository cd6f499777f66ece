use ternary_thermodynamics::binary64::{
    abs_bits, less_than, INFINITY_MAGNITUDE, POSITIVE_ZERO, SIGN_BIT,
};

fn samples() -> Vec<f64> {
    vec![
        f64::NEG_INFINITY,
        -1e300,
        -1.5,
        -1e-310,
        -0.0,
        0.0,
        5e-324,
        1e-310,
        1e-15,
        0.1,
        1.0 / 3.0,
        0.5,
        1.0,
        1e300,
        f64::MAX,
        f64::INFINITY,
        f64::NAN,
        -f64::NAN,
    ]
}

#[test]
fn less_than_agrees_with_float_comparison() {
    for &a in &samples() {
        for &b in &samples() {
            assert_eq!(
                less_than(a.to_bits(), b.to_bits()),
                a < b,
                "comparing {:?} with {:?}",
                a,
                b
            );
        }
    }
}

#[test]
fn abs_bits_agrees_with_float_abs() {
    for &a in &samples() {
        assert_eq!(abs_bits(a.to_bits()), a.abs().to_bits(), "abs of {:?}", a);
    }
}

#[test]
fn encoding_constants_are_the_ieee_ones() {
    assert_eq!(SIGN_BIT, (-0.0f64).to_bits());
    assert_eq!(POSITIVE_ZERO, 0.0f64.to_bits());
    assert_eq!(INFINITY_MAGNITUDE, f64::INFINITY.to_bits());
}

#[test]
fn nan_is_unordered() {
    let nan = f64::NAN.to_bits();
    let one = 1.0f64.to_bits();
    assert!(!less_than(nan, one));
    assert!(!less_than(one, nan));
    assert!(!less_than(nan, nan));
}

#[test]
fn zeros_are_equal() {
    let neg = (-0.0f64).to_bits();
    let pos = 0.0f64.to_bits();
    assert!(!less_than(neg, pos));
    assert!(!less_than(pos, neg));
}
