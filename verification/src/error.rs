//! What can go wrong in a registration, each with the value that caused it.

use vstd::prelude::*;
use crate::scalar::Scalar;

verus! {

/// A run parameter lies outside its permitted range.
#[derive(Clone, Copy, Debug, PartialEq, Eq, Structural)]
pub enum InvalidParameter {
    /// The outlier weight is not a number in `[0, 1)`.
    OutlierWeight(Scalar),
    /// The iteration limit is zero.
    MaxIterations(usize),
    /// The convergence tolerance is not a number above zero.
    Tolerance(Scalar),
    /// The kernel bandwidth is not a number above zero.
    Sigma2(Scalar),
    /// A dimension differs from the one it has to agree with: that of the
    /// moving points from that of the fixed points, or that of a value derived
    /// from a point set from that of the set.
    Dimension { expected: usize, found: usize },
}

/// A point set that cannot be centred and scaled.
#[derive(Clone, Copy, Debug, PartialEq, Eq, Structural)]
pub enum DegenerateInput {
    /// The point set has no points.
    NoPoints,
    /// The points' root-mean-square distance from their centroid, which is
    /// not a number above zero.
    Scale(Scalar),
}

/// An estimate that no transform can be made of.
#[derive(Clone, Copy, Debug, PartialEq, Eq, Structural)]
pub enum DegenerateConvergence {
    /// The total correspondence mass, which is not a number above zero: no
    /// correspondence signal remains.
    Mass(Scalar),
    /// The estimated scale, which is not a number above zero.
    Scale(Scalar),
}

/// Why a registration stopped without a result.
#[derive(Clone, Copy, Debug, PartialEq, Eq, Structural)]
pub enum Error {
    /// A parameter was out of range. Found before the first iteration.
    InvalidParameter(InvalidParameter),
    /// A point set could not be normalized. Found before the first iteration.
    DegenerateInput(DegenerateInput),
    /// An iteration arrived at an estimate that no transform can be made of.
    DegenerateConvergence(DegenerateConvergence),
    /// The singular value decomposition of a matrix of this shape did not
    /// converge.
    NumericOverflow { rows: usize, cols: usize },
}

} // verus!
