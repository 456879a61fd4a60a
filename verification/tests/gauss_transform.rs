use cpd::error::{Error, InvalidParameter};
use cpd::gauss_transform::{row_has_mass, InvalidOutlierWeight, Transformer};
use cpd::points::PointSet;
use cpd::scalar::Scalar;

fn scalar(x: f64) -> Scalar {
    Scalar::from_bits(x.to_bits())
}

/// A table of `rows` points of `dim` coordinates in `[0, 1)`, from a fixed
/// pseudo-random sequence.
fn random_matrix(rows: usize, dim: usize) -> PointSet {
    let mut state: u64 = 0x2545_f491_4f6c_dd1d;
    let mut coords = Vec::new();
    for _ in 0..rows * dim {
        state ^= state << 13;
        state ^= state >> 7;
        state ^= state << 17;
        coords.push(scalar((state >> 11) as f64 / (1u64 << 53) as f64));
    }
    PointSet::new(dim, coords).unwrap()
}

#[test]
fn invalid_outlier_weight() {
    let matrix = random_matrix(10, 2);
    assert_eq!(
        InvalidOutlierWeight(scalar(-1.)),
        Transformer::new(&matrix, scalar(-1.)).unwrap_err()
    );
    assert_eq!(
        InvalidOutlierWeight(scalar(1.1)),
        Transformer::new(&matrix, scalar(1.1)).unwrap_err()
    );
}

#[test]
fn an_invalid_outlier_weight_is_an_invalid_parameter() {
    assert_eq!(
        Error::from(InvalidOutlierWeight(scalar(1.1))),
        Error::InvalidParameter(InvalidParameter::OutlierWeight(scalar(1.1)))
    );
}

#[test]
fn outlier_weights_from_zero_to_one_are_accepted() {
    let matrix = random_matrix(10, 2);
    for w in [0.0, -0.0, f64::from_bits(1), 0.1, 0.5, 0.999, f64::from_bits(0x3fef_ffff_ffff_ffff), 1.0] {
        let transformer = Transformer::new(&matrix, scalar(w)).unwrap();
        assert_eq!(transformer.outlier_weight(), scalar(w));
        assert_eq!(transformer.fixed(), &matrix);
    }
}

#[test]
fn outlier_weights_outside_zero_to_one_are_refused() {
    let matrix = random_matrix(10, 2);
    for w in [
        -f64::from_bits(1),
        -0.1,
        f64::NEG_INFINITY,
        f64::from_bits(0x3ff0_0000_0000_0001),
        2.0,
        f64::INFINITY,
    ] {
        assert_eq!(
            Transformer::new(&matrix, scalar(w)).unwrap_err(),
            InvalidOutlierWeight(scalar(w))
        );
    }
}

#[test]
fn a_nan_outlier_weight_is_neither_below_zero_nor_above_one() {
    let matrix = random_matrix(3, 2);
    assert!(Transformer::new(&matrix, scalar(f64::NAN)).is_ok());
}

#[test]
fn check_accepts_a_weight_below_one_and_a_bandwidth_above_zero() {
    let fixed = random_matrix(10, 2);
    let moving = random_matrix(7, 2);
    for w in [0.0, 0.1, f64::from_bits(0x3fef_ffff_ffff_ffff)] {
        let transformer = Transformer::new(&fixed, scalar(w)).unwrap();
        for sigma2 in [f64::from_bits(1), f64::EPSILON, 1.0, 1e300, f64::INFINITY] {
            assert_eq!(transformer.check(&moving, scalar(sigma2)), Ok(()));
        }
    }
}

#[test]
fn check_refuses_an_outlier_weight_of_one() {
    let fixed = random_matrix(10, 2);
    let moving = random_matrix(7, 2);
    let transformer = Transformer::new(&fixed, scalar(1.0)).unwrap();
    assert_eq!(
        transformer.check(&moving, scalar(1.0)),
        Err(InvalidParameter::OutlierWeight(scalar(1.0)))
    );
    let transformer = Transformer::new(&fixed, scalar(f64::NAN)).unwrap();
    assert_eq!(
        transformer.check(&moving, scalar(1.0)),
        Err(InvalidParameter::OutlierWeight(scalar(f64::NAN)))
    );
}

#[test]
fn check_refuses_a_bandwidth_that_is_not_above_zero() {
    let fixed = random_matrix(10, 2);
    let moving = random_matrix(7, 2);
    let transformer = Transformer::new(&fixed, scalar(0.1)).unwrap();
    for sigma2 in [0.0, -0.0, -1.0, f64::NEG_INFINITY, f64::NAN] {
        assert_eq!(
            transformer.check(&moving, scalar(sigma2)),
            Err(InvalidParameter::Sigma2(scalar(sigma2)))
        );
    }
}

#[test]
fn check_refuses_moving_points_of_another_dimension() {
    let fixed = random_matrix(10, 2);
    let moving = random_matrix(10, 3);
    let transformer = Transformer::new(&fixed, scalar(0.1)).unwrap();
    assert_eq!(
        transformer.check(&moving, scalar(1.0)),
        Err(InvalidParameter::Dimension { expected: 2, found: 3 })
    );
}

#[test]
fn check_names_the_outlier_weight_before_the_bandwidth_and_the_dimension() {
    let fixed = random_matrix(10, 2);
    let moving = random_matrix(10, 3);
    let transformer = Transformer::new(&fixed, scalar(1.0)).unwrap();
    assert_eq!(
        transformer.check(&moving, scalar(0.0)),
        Err(InvalidParameter::OutlierWeight(scalar(1.0)))
    );
    let transformer = Transformer::new(&fixed, scalar(0.5)).unwrap();
    assert_eq!(
        transformer.check(&moving, scalar(0.0)),
        Err(InvalidParameter::Sigma2(scalar(0.0)))
    );
}

#[test]
fn a_row_has_mass_where_its_denominator_is_above_zero() {
    assert!(row_has_mass(scalar(1.0)));
    assert!(row_has_mass(scalar(f64::from_bits(1))));
    assert!(row_has_mass(scalar(f64::INFINITY)));
    assert!(!row_has_mass(scalar(0.0)));
    assert!(!row_has_mass(scalar(-0.0)));
    assert!(!row_has_mass(scalar(-1.0)));
    assert!(!row_has_mass(scalar(f64::NAN)));
}
