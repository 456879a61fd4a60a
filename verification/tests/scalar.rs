use cpd::scalar::Scalar;

fn scalar(x: f64) -> Scalar {
    Scalar::from_bits(x.to_bits())
}

fn samples() -> Vec<f64> {
    vec![
        f64::NAN,
        -f64::NAN,
        f64::from_bits(0x7ff0_0000_0000_0001),
        f64::NEG_INFINITY,
        -f64::MAX,
        -1.1,
        -1.0,
        -0.5,
        -f64::EPSILON,
        -f64::MIN_POSITIVE,
        -f64::from_bits(0x000f_ffff_ffff_ffff),
        -f64::from_bits(1),
        -0.0,
        0.0,
        f64::from_bits(1),
        f64::from_bits(2),
        f64::from_bits(0x000f_ffff_ffff_ffff),
        f64::MIN_POSITIVE,
        f64::EPSILON,
        0.5,
        f64::from_bits(0x3fef_ffff_ffff_ffff),
        1.0,
        f64::from_bits(0x3ff0_0000_0000_0001),
        1.1,
        2.0,
        1e300,
        f64::MAX,
        f64::INFINITY,
    ]
}

#[test]
fn constants_have_the_patterns_of_their_numbers() {
    assert_eq!(Scalar::zero().to_bits(), 0.0f64.to_bits());
    assert_eq!(Scalar::one().to_bits(), 1.0f64.to_bits());
    assert_eq!(Scalar::neg_one().to_bits(), (-1.0f64).to_bits());
    assert_eq!(Scalar::one().to_bits(), 0x3ff0_0000_0000_0000);
}

#[test]
fn from_bits_and_to_bits_are_inverse() {
    for x in samples() {
        assert_eq!(scalar(x).to_bits(), x.to_bits());
        assert_eq!(Scalar::from_bits(x.to_bits()), scalar(x));
    }
}

#[test]
fn pattern_equality_tells_the_zeros_apart() {
    assert_ne!(scalar(0.0), scalar(-0.0));
    assert_eq!(scalar(f64::NAN), scalar(f64::NAN));
    assert!(scalar(0.0).le(scalar(-0.0)));
    assert!(scalar(-0.0).le(scalar(0.0)));
    assert!(!scalar(-0.0).lt(scalar(0.0)));
    assert!(!scalar(0.0).lt(scalar(-0.0)));
}

#[test]
fn comparisons_agree_with_the_numbers() {
    for a in samples() {
        for b in samples() {
            assert_eq!(scalar(a).lt(scalar(b)), a < b, "{:e} < {:e}", a, b);
            assert_eq!(scalar(a).le(scalar(b)), a <= b, "{:e} <= {:e}", a, b);
            assert_eq!(scalar(a).gt(scalar(b)), a > b, "{:e} > {:e}", a, b);
            assert_eq!(scalar(a).ge(scalar(b)), a >= b, "{:e} >= {:e}", a, b);
        }
    }
}

#[test]
fn classification_agrees_with_the_numbers() {
    for a in samples() {
        assert_eq!(scalar(a).is_nan(), a.is_nan(), "{:e}", a);
        assert_eq!(scalar(a).is_zero(), a == 0.0, "{:e}", a);
        assert_eq!(scalar(a).is_positive(), a > 0.0, "{:e}", a);
    }
}

#[test]
fn nan_compares_with_nothing() {
    let nan = scalar(f64::NAN);
    for a in samples() {
        assert!(!nan.lt(scalar(a)));
        assert!(!nan.le(scalar(a)));
        assert!(!scalar(a).lt(nan));
        assert!(!scalar(a).le(nan));
    }
    assert!(!nan.is_zero());
    assert!(!nan.is_positive());
}

#[test]
fn order_is_strict_and_total_on_numbers() {
    for a in samples() {
        for b in samples() {
            if a.is_nan() || b.is_nan() {
                continue;
            }
            let less = scalar(a).lt(scalar(b));
            let greater = scalar(b).lt(scalar(a));
            let same = scalar(a).le(scalar(b)) && scalar(b).le(scalar(a));
            let holds = [less, greater, same].iter().filter(|x| **x).count();
            assert_eq!(holds, 1, "{:e} and {:e}", a, b);
        }
    }
}

#[test]
fn neighbours_of_one_are_ordered() {
    let below = Scalar::from_bits(0x3fef_ffff_ffff_ffff);
    let above = Scalar::from_bits(0x3ff0_0000_0000_0001);
    assert!(below.lt(Scalar::one()));
    assert!(Scalar::one().lt(above));
    assert!(Scalar::zero().lt(Scalar::one()));
    assert!(Scalar::neg_one().lt(Scalar::zero()));
}
