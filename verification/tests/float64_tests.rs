use rust_scenedetect::Float64;

fn bits_of(x: f64) -> Float64 {
    Float64::from_bits(x.to_bits())
}

fn sample_values() -> Vec<f64> {
    vec![
        0.0,
        -0.0,
        1.0,
        -1.0,
        0.5,
        -0.5,
        27.0,
        26.999999999999996,
        27.000000000000004,
        29.97,
        -29.97,
        1e-310,
        -1e-310,
        f64::MIN_POSITIVE,
        -f64::MIN_POSITIVE,
        f64::MAX,
        f64::MIN,
        f64::INFINITY,
        f64::NEG_INFINITY,
        f64::NAN,
        -f64::NAN,
        f64::from_bits(0x7ff0_0000_0000_0001),
        f64::from_bits(0xffff_ffff_ffff_ffff),
        f64::from_bits(1),
        f64::from_bits(0x8000_0000_0000_0001),
    ]
}

#[test]
fn test_from_bits_round_trip() {
    for x in sample_values() {
        assert_eq!(bits_of(x).to_bits(), x.to_bits());
    }
    assert_eq!(Float64::zero().to_bits(), 0.0f64.to_bits());
    assert_eq!(Float64::from_bits(0x403b_0000_0000_0000).to_bits(), 27.0f64.to_bits());
}

#[test]
fn test_classification_agrees_with_the_machine() {
    for x in sample_values() {
        let b = bits_of(x);
        assert_eq!(b.is_nan(), x.is_nan(), "is_nan of {:?}", x);
        assert_eq!(b.is_zero(), x == 0.0, "is_zero of {:?}", x);
        assert_eq!(b.is_positive(), x > 0.0, "is_positive of {:?}", x);
        assert_eq!(b.is_non_negative(), x >= 0.0, "is_non_negative of {:?}", x);
    }
}

#[test]
fn test_comparison_agrees_with_the_machine() {
    for x in sample_values() {
        for y in sample_values() {
            let (a, b) = (bits_of(x), bits_of(y));
            assert_eq!(a.ge(b), x >= y, "{:?} >= {:?}", x, y);
            assert_eq!(a.le(b), x <= y, "{:?} <= {:?}", x, y);
            assert_eq!(a.equals(b), x == y, "{:?} == {:?}", x, y);
            assert_eq!(a == b, x == y, "{:?} == {:?} by the operator", x, y);
        }
    }
}

#[test]
fn test_zero_is_not_positive_but_not_negative() {
    assert!(!bits_of(0.0).is_positive());
    assert!(bits_of(0.0).is_non_negative());
    assert!(!bits_of(-0.0).is_positive());
    assert!(bits_of(-0.0).is_non_negative());
    assert!(bits_of(0.0).ge(bits_of(-0.0)));
    assert!(bits_of(-0.0).ge(bits_of(0.0)));
}

#[test]
fn test_nan_compares_with_nothing() {
    let nan = bits_of(f64::NAN);
    assert!(!nan.ge(nan));
    assert!(!nan.le(nan));
    assert!(!nan.equals(nan));
    assert!(!nan.ge(bits_of(0.0)));
    assert!(!bits_of(0.0).ge(nan));
    assert!(!nan.is_positive());
    assert!(!nan.is_non_negative());
}
