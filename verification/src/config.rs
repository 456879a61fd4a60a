//! The parameters of a run and their validation.

use vstd::prelude::*;
use crate::error::InvalidParameter;
use crate::scalar::Scalar;

verus! {

/// The values a caller chooses for a run, not yet checked.
#[derive(Clone, Copy, Debug, PartialEq, Eq, Structural)]
pub struct Parameters {
    /// Prior probability that a point is noise, explained by no correspondence.
    pub outlier_weight: Scalar,
    /// The most iterations a run may perform.
    pub max_iterations: usize,
    /// A run has converged once the relative change between two iterations
    /// falls below this.
    pub tolerance: Scalar,
    /// Whether a uniform scale is estimated; otherwise it is fixed at 1.
    pub allow_scale: bool,
    /// Whether the estimated rotation may be a reflection.
    pub allow_reflections: bool,
}

impl Parameters {
    /// The first parameter out of range, if any: the outlier weight unless it
    /// is a number in `[0, 1)`, then the iteration limit unless it is at least
    /// one, then the tolerance unless it is a number above zero.
    pub open spec fn violation(self) -> Option<InvalidParameter> {
        if !(Scalar::zero().le(self.outlier_weight) && self.outlier_weight.lt(Scalar::one())) {
            Some(InvalidParameter::OutlierWeight(self.outlier_weight))
        } else if self.max_iterations < 1 {
            Some(InvalidParameter::MaxIterations(self.max_iterations))
        } else if !self.tolerance.is_positive() {
            Some(InvalidParameter::Tolerance(self.tolerance))
        } else {
            None
        }
    }

    /// Every parameter is in range.
    pub open spec fn valid(self) -> bool {
        self.violation() is None
    }

    /// Checks every parameter against its range.
    pub fn check(&self) -> (r: Result<(), InvalidParameter>)
        ensures
            r == match self.violation() {
                Some(e) => Err::<(), InvalidParameter>(e),
                None => Ok(()),
            },
    {
        if !(Scalar::zero().le(self.outlier_weight) && self.outlier_weight.lt(Scalar::one())) {
            Err(InvalidParameter::OutlierWeight(self.outlier_weight))
        } else if self.max_iterations < 1 {
            Err(InvalidParameter::MaxIterations(self.max_iterations))
        } else if !self.tolerance.is_positive() {
            Err(InvalidParameter::Tolerance(self.tolerance))
        } else {
            Ok(())
        }
    }
}

/// The parameters of a run, every one of them in range.
#[derive(Clone, Copy, Debug, PartialEq, Eq)]
pub struct RunConfig {
    parameters: Parameters,
}

impl RunConfig {
    #[verifier::type_invariant]
    pub closed spec fn well_formed(&self) -> bool {
        self.parameters.valid()
    }

    /// The parameters this configuration holds.
    pub closed spec fn view(&self) -> Parameters {
        self.parameters
    }

    /// A well-formed configuration holds valid parameters.
    pub proof fn lemma_valid(&self)
        requires
            self.well_formed(),
        ensures
            self@.valid(),
    {
    }

    /// The configuration with these parameters, or the first of them that is
    /// out of range.
    pub fn new(parameters: Parameters) -> (r: Result<RunConfig, InvalidParameter>)
        ensures
            r.is_ok() <==> parameters.valid(),
            r matches Ok(c) ==> c@ == parameters && c.well_formed(),
            r matches Err(e) ==> parameters.violation() == Some(e),
            !parameters.outlier_weight.lt(Scalar::one()) ==> r == Err::<RunConfig, InvalidParameter>(
                InvalidParameter::OutlierWeight(parameters.outlier_weight),
            ),
    {
        match parameters.check() {
            Ok(()) => Ok(RunConfig { parameters }),
            Err(e) => Err(e),
        }
    }

    /// The parameters, all in range.
    pub fn parameters(&self) -> (r: Parameters)
        ensures
            r == self@,
            r.valid(),
    {
        proof {
            use_type_invariant(self);
        }
        self.parameters
    }

    /// The outlier weight, a number in `[0, 1)`.
    pub fn outlier_weight(&self) -> (r: Scalar)
        ensures
            r == self@.outlier_weight,
            Scalar::zero().le(r),
            r.lt(Scalar::one()),
    {
        proof {
            use_type_invariant(self);
        }
        self.parameters.outlier_weight
    }

    /// The iteration limit, at least one.
    pub fn max_iterations(&self) -> (r: usize)
        ensures
            r == self@.max_iterations,
            r >= 1,
    {
        proof {
            use_type_invariant(self);
        }
        self.parameters.max_iterations
    }

    /// The convergence tolerance, a number above zero.
    pub fn tolerance(&self) -> (r: Scalar)
        ensures
            r == self@.tolerance,
            r.is_positive(),
    {
        proof {
            use_type_invariant(self);
        }
        self.parameters.tolerance
    }

    /// Whether a uniform scale is estimated.
    pub fn allow_scale(&self) -> (r: bool)
        ensures
            r == self@.allow_scale,
    {
        self.parameters.allow_scale
    }

    /// Whether the estimated rotation may be a reflection.
    pub fn allow_reflections(&self) -> (r: bool)
        ensures
            r == self@.allow_reflections,
    {
        self.parameters.allow_reflections
    }
}

} // verus!
