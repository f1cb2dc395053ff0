use rbiteopt::float_bits::FloatBits;

fn fb(x: f64) -> FloatBits {
    FloatBits::from_bits(x.to_bits())
}

#[test]
fn bits_round_trip() {
    let v = fb(-2.5);
    assert_eq!(v.to_bits(), (-2.5f64).to_bits());
    assert_eq!(f64::from_bits(v.to_bits()), -2.5);
}

#[test]
fn less_than_matches_f64_on_ordinary_values() {
    let values = [
        f64::NEG_INFINITY,
        -1.0e300,
        -10.0,
        -1.0,
        -f64::MIN_POSITIVE,
        -5.0e-324,
        -0.0,
        0.0,
        5.0e-324,
        f64::MIN_POSITIVE,
        0.5,
        1.0,
        2.0,
        1.0e300,
        f64::INFINITY,
        f64::NAN,
        -f64::NAN,
    ];
    for a in values.iter() {
        for b in values.iter() {
            assert_eq!(fb(*a).less_than(&fb(*b)), *a < *b, "{} < {}", a, b);
        }
    }
}

#[test]
fn zeros_are_equal() {
    assert!(!fb(-0.0).less_than(&fb(0.0)));
    assert!(!fb(0.0).less_than(&fb(-0.0)));
}

#[test]
fn nan_is_never_less_nor_greater() {
    assert!(fb(f64::NAN).is_nan());
    assert!(!fb(f64::INFINITY).is_nan());
    assert!(!fb(f64::NAN).less_than(&fb(1.0)));
    assert!(!fb(1.0).less_than(&fb(f64::NAN)));
}

#[test]
fn negative_below_positive() {
    assert!(fb(-3.0).less_than(&fb(2.0)));
    assert!(!fb(2.0).less_than(&fb(-3.0)));
    assert!(fb(-3.0).less_than(&fb(-2.0)));
    assert!(fb(2.0).less_than(&fb(3.0)));
}
