//! The centring and scaling that is applied to a point set before a run and
//! reversed after it.

use vstd::prelude::*;
use crate::config::RunConfig;
use crate::error::{DegenerateInput, Error, InvalidParameter};
use crate::points::PointSet;
use crate::scalar::Scalar;

verus! {

/// What a normalization holds.
pub struct NormalizationView {
    /// The centroid that is subtracted from every point.
    pub centroid: Seq<Scalar>,
    /// The factor that every centred point is divided by.
    pub scale: Scalar,
}

/// Why `points` cannot be normalized with this centroid and scale, if
/// anything: that there are no points, then that the scale is not a number
/// above zero, then that the centroid is not of the points' dimension.
pub open spec fn rejection(points: &PointSet, centroid: Seq<Scalar>, scale: Scalar) -> Option<
    Error,
> {
    if points.len() == 0 {
        Some(Error::DegenerateInput(DegenerateInput::NoPoints))
    } else if !scale.is_positive() {
        Some(Error::DegenerateInput(DegenerateInput::Scale(scale)))
    } else if centroid.len() != points.dim() {
        Some(
            Error::InvalidParameter(
                InvalidParameter::Dimension {
                    expected: points.dim(),
                    found: centroid.len() as usize,
                },
            ),
        )
    } else {
        None
    }
}

/// The centroid of a point set and the scale of its spread, by which the set
/// is normalized. The scale is a number above zero.
#[derive(Debug, PartialEq, Eq)]
pub struct Normalization {
    centroid: Vec<Scalar>,
    scale: Scalar,
}

impl Normalization {
    #[verifier::type_invariant]
    pub closed spec fn well_formed(&self) -> bool {
        &&& self.centroid.len() > 0
        &&& self.scale.is_positive()
    }

    pub closed spec fn view(&self) -> NormalizationView {
        NormalizationView { centroid: self.centroid@, scale: self.scale }
    }

    /// A well-formed normalization has a centroid of at least one entry and a
    /// scale above zero.
    pub proof fn lemma_shape(&self)
        requires
            self.well_formed(),
        ensures
            self@.centroid.len() > 0,
            self@.scale.is_positive(),
    {
    }

    /// The normalization of `points` by their centroid and by `scale`, the
    /// root-mean-square distance of the points from it. It is refused when
    /// the set is empty or the points do not spread.
    pub fn new(points: &PointSet, centroid: Vec<Scalar>, scale: Scalar) -> (r: Result<
        Normalization,
        Error,
    >)
        ensures
            r matches Ok(n) ==> {
                &&& rejection(points, centroid@, scale) is None
                &&& n.well_formed()
                &&& n@.centroid == centroid@
                &&& n@.scale == scale
            },
            r matches Err(e) ==> rejection(points, centroid@, scale) == Some(e),
    {
        if points.len() == 0 {
            Err(Error::DegenerateInput(DegenerateInput::NoPoints))
        } else if !scale.is_positive() {
            Err(Error::DegenerateInput(DegenerateInput::Scale(scale)))
        } else if centroid.len() != points.dim() {
            Err(
                Error::InvalidParameter(
                    InvalidParameter::Dimension { expected: points.dim(), found: centroid.len() },
                ),
            )
        } else {
            Ok(Normalization { centroid, scale })
        }
    }

    /// This normalization of the moving points, made to go with `fixed`, that
    /// of the fixed points. Where a scale is estimated, each set keeps its
    /// own. Where the scale is fixed at 1, the moving points take the scale
    /// of the fixed ones: with two scales the transform, once taken back to
    /// the caller's coordinates, would scale by their ratio.
    pub fn matched(self, config: &RunConfig, fixed: &Normalization) -> (r: Normalization)
        ensures
            r.well_formed(),
            r@.centroid == self@.centroid,
            r@.scale == if config@.allow_scale {
                self@.scale
            } else {
                fixed@.scale
            },
    {
        proof {
            use_type_invariant(&self);
            use_type_invariant(fixed);
        }
        if config.allow_scale() {
            self
        } else {
            Normalization { centroid: self.centroid, scale: fixed.scale }
        }
    }

    /// The dimension of the points that were normalized.
    pub fn dim(&self) -> (r: usize)
        ensures
            r == self@.centroid.len(),
            r > 0,
    {
        proof {
            use_type_invariant(self);
        }
        self.centroid.len()
    }

    /// The centroid.
    pub fn centroid(&self) -> (r: &Vec<Scalar>)
        ensures
            r@ == self@.centroid,
            r@.len() > 0,
    {
        proof {
            use_type_invariant(self);
        }
        &self.centroid
    }

    /// The scale, a number above zero.
    pub fn scale(&self) -> (r: Scalar)
        ensures
            r == self@.scale,
            r.is_positive(),
    {
        proof {
            use_type_invariant(self);
        }
        self.scale
    }
}

impl Clone for Normalization {
    fn clone(&self) -> (r: Self)
        ensures
            r@ == self@,
    {
        proof {
            use_type_invariant(self);
        }
        let centroid = self.centroid.clone();
        assert(centroid@ =~= self.centroid@);
        Normalization { centroid, scale: self.scale }
    }
}

} // verus!
