//! The Gauss transform: the soft correspondence between two point sets. Here
//! stand its parameters and what it demands of them.

use vstd::prelude::*;
use crate::error::{Error, InvalidParameter};
use crate::points::PointSet;
use crate::scalar::Scalar;

verus! {

/// An outlier weight that is below zero or above one.
#[derive(Clone, Copy, Debug, PartialEq, Eq, Structural)]
pub struct InvalidOutlierWeight(pub Scalar);

impl From<InvalidOutlierWeight> for Error {
    /// The error of a run that was given this outlier weight.
    fn from(e: InvalidOutlierWeight) -> (r: Error) {
        Error::InvalidParameter(InvalidParameter::OutlierWeight(e.0))
    }
}

impl vstd::std_specs::convert::FromSpecImpl<InvalidOutlierWeight> for Error {
    open spec fn obeys_from_spec() -> bool {
        true
    }

    open spec fn from_spec(e: InvalidOutlierWeight) -> Error {
        Error::InvalidParameter(InvalidParameter::OutlierWeight(e.0))
    }
}

/// Runs Gauss transforms of moving point sets against one fixed point set.
#[derive(Debug)]
pub struct Transformer<'a> {
    fixed: &'a PointSet,
    outlier_weight: Scalar,
}

/// What a Gauss transform with this outlier weight and bandwidth, on points of
/// these dimensions, is refused for, if anything: the outlier weight unless it
/// is a number in `[0, 1)`, then the bandwidth unless it is a number above
/// zero, then the dimension of the moving points unless it is that of the
/// fixed ones.
pub open spec fn refusal(
    outlier_weight: Scalar,
    sigma2: Scalar,
    fixed_dim: usize,
    moving_dim: usize,
) -> Option<InvalidParameter> {
    if !(Scalar::zero().le(outlier_weight) && outlier_weight.lt(Scalar::one())) {
        Some(InvalidParameter::OutlierWeight(outlier_weight))
    } else if !sigma2.is_positive() {
        Some(InvalidParameter::Sigma2(sigma2))
    } else if moving_dim != fixed_dim {
        Some(InvalidParameter::Dimension { expected: fixed_dim, found: moving_dim })
    } else {
        None
    }
}

impl<'a> Transformer<'a> {
    /// The fixed points.
    pub closed spec fn spec_fixed(&self) -> &'a PointSet {
        self.fixed
    }

    /// The outlier weight.
    pub closed spec fn spec_outlier_weight(&self) -> Scalar {
        self.outlier_weight
    }

    /// Creates a new transformer.
    ///
    /// Returns an error if the outlier weight is below zero or above one.
    pub fn new(fixed: &'a PointSet, outlier_weight: Scalar) -> (r: Result<
        Transformer<'a>,
        InvalidOutlierWeight,
    >)
        ensures
            r.is_err() <==> outlier_weight.lt(Scalar::zero()) || outlier_weight.gt(Scalar::one()),
            Scalar::zero().le(outlier_weight) && outlier_weight.le(Scalar::one()) ==> r.is_ok(),
            r matches Err(e) ==> e == InvalidOutlierWeight(outlier_weight),
            r matches Ok(t) ==> t.spec_fixed() == fixed && t.spec_outlier_weight() == outlier_weight,
    {
        if outlier_weight.lt(Scalar::zero()) || outlier_weight.gt(Scalar::one()) {
            Err(InvalidOutlierWeight(outlier_weight))
        } else {
            Ok(Transformer { fixed, outlier_weight })
        }
    }

    /// The fixed points.
    #[verifier::when_used_as_spec(spec_fixed)]
    pub fn fixed(&self) -> (r: &'a PointSet)
        ensures
            r == self.spec_fixed(),
    {
        self.fixed
    }

    /// The outlier weight.
    #[verifier::when_used_as_spec(spec_outlier_weight)]
    pub fn outlier_weight(&self) -> (r: Scalar)
        ensures
            r == self.spec_outlier_weight(),
    {
        self.outlier_weight
    }

    /// Checks what the transform of `moving` at bandwidth `sigma2` demands:
    /// an outlier weight in `[0, 1)`, a bandwidth above zero, and moving
    /// points of the fixed points' dimension.
    pub fn check(&self, moving: &PointSet, sigma2: Scalar) -> (r: Result<(), InvalidParameter>)
        ensures
            r == match refusal(self.outlier_weight(), sigma2, self.fixed().dim(), moving.dim()) {
                Some(e) => Err::<(), InvalidParameter>(e),
                None => Ok(()),
            },
    {
        if !(Scalar::zero().le(self.outlier_weight) && self.outlier_weight.lt(Scalar::one())) {
            Err(InvalidParameter::OutlierWeight(self.outlier_weight))
        } else if !sigma2.is_positive() {
            Err(InvalidParameter::Sigma2(sigma2))
        } else if moving.dim() != self.fixed.dim() {
            Err(InvalidParameter::Dimension { expected: self.fixed.dim(), found: moving.dim() })
        } else {
            Ok(())
        }
    }
}

/// Whether a fixed point's row of kernel weights may be divided by its
/// denominator, the sum of the row plus the outlier term. Where the
/// denominator is not a number above zero, as when every kernel weight has
/// underflowed, the point's whole mass goes to the outliers: every
/// correspondence weight of the row is zero.
pub fn row_has_mass(denominator: Scalar) -> (r: bool)
    ensures
        r == denominator.is_positive(),
{
    denominator.is_positive()
}

} // verus!
