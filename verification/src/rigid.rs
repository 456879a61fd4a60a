//! The rigid transform and the rules of its estimation that are decided
//! rather than computed.

use vstd::prelude::*;
use vstd::arithmetic::power2::*;
use crate::config::RunConfig;
use crate::error::{DegenerateConvergence, Error};
use crate::points::{lemma_table_index, rows_of};
use crate::scalar::{lemma_constant_values, Scalar, HIDDEN_BIT};

verus! {

/// What a transform holds: `x` goes to `scale * rotation * x + translation`.
pub struct TransformView {
    /// The rows of the D×D rotation matrix.
    pub rotation: Seq<Seq<Scalar>>,
    /// The D entries of the translation.
    pub translation: Seq<Scalar>,
    /// The uniform scale.
    pub scale: Scalar,
}

/// Entry (`row`, `col`) of an identity matrix.
pub open spec fn identity_entry(row: int, col: int) -> Scalar {
    if row == col {
        Scalar::one()
    } else {
        Scalar::zero()
    }
}

/// A rotation, a translation and a uniform scale of one dimension.
#[derive(Debug, PartialEq, Eq)]
pub struct Transform {
    dim: usize,
    rotation: Vec<Scalar>,
    translation: Vec<Scalar>,
    scale: Scalar,
}

impl Transform {
    #[verifier::type_invariant]
    pub closed spec fn well_formed(&self) -> bool {
        &&& self.dim > 0
        &&& self.rotation.len() == self.dim * self.dim
        &&& self.translation.len() == self.dim
        &&& self.scale.is_positive()
    }

    pub closed spec fn view(&self) -> TransformView {
        TransformView {
            rotation: rows_of(self.rotation@, self.dim as nat),
            translation: self.translation@,
            scale: self.scale,
        }
    }

    /// The dimension of the points this transform applies to.
    pub closed spec fn spec_dim(&self) -> usize {
        self.dim
    }

    /// The rotation matrix, row after row.
    pub closed spec fn spec_rotation(&self) -> Seq<Scalar> {
        self.rotation@
    }

    /// A well-formed transform of dimension D has a D×D rotation laid out row
    /// after row, a translation of D entries and a scale above zero.
    pub proof fn lemma_shape(&self)
        requires
            self.well_formed(),
        ensures
            self.spec_dim() > 0,
            self.spec_rotation().len() == self.spec_dim() * self.spec_dim(),
            self@.rotation == rows_of(self.spec_rotation(), self.spec_dim() as nat),
            self@.rotation.len() == self.spec_dim(),
            self@.translation.len() == self.spec_dim(),
            self@.scale.is_positive(),
            forall|i: int|
                0 <= i < self.spec_dim() ==> (#[trigger] self@.rotation[i]).len() == self.spec_dim(),
            forall|i: int, j: int|
                0 <= i < self.spec_dim() && 0 <= j < self.spec_dim() ==> #[trigger] self@.rotation[i][j]
                    == self.spec_rotation()[i * self.spec_dim() + j],
    {
        let d = self.dim as nat;
        assert((d * d) / d == d) by (nonlinear_arith)
            requires
                d > 0,
        ;
        assert forall|i: int| 0 <= i < d implies (#[trigger] self@.rotation[i]).len() == d by {
            lemma_table_index(d, d, i as nat, 0);
        }
        assert forall|i: int, j: int| 0 <= i < d && 0 <= j < d implies #[trigger] self@.rotation[i][j]
            == self.spec_rotation()[i * d + j] by {
            lemma_table_index(d, d, i as nat, j as nat);
        }
    }

    /// The transform that leaves every point of dimension `dim` where it is:
    /// the identity matrix, no translation, scale 1. There is none when `dim`
    /// is zero or a `dim`×`dim` matrix cannot be held.
    pub fn identity(dim: usize) -> (r: Option<Transform>)
        ensures
            r.is_some() <==> dim > 0 && dim * dim <= usize::MAX,
            r matches Some(t) ==> {
                &&& t.well_formed()
                &&& t.spec_dim() == dim
                &&& t@.scale == Scalar::one()
                &&& t@.translation.len() == dim
                &&& forall|i: int| 0 <= i < dim ==> t@.translation[i] == Scalar::zero()
                &&& t@.rotation.len() == dim
                &&& forall|i: int| 0 <= i < dim ==> (#[trigger] t@.rotation[i]).len() == dim
                &&& forall|i: int, j: int|
                    0 <= i < dim && 0 <= j < dim ==> #[trigger] t@.rotation[i][j] == identity_entry(i, j)
            },
    {
        if dim == 0 {
            return None;
        }
        let size: usize = match dim.checked_mul(dim) {
            Some(size) => size,
            None => {
                return None;
            },
        };
        let mut rotation: Vec<Scalar> = Vec::new();
        let mut translation: Vec<Scalar> = Vec::new();
        let mut row: usize = 0;
        while row < dim
            invariant
                0 < dim,
                size == dim * dim,
                row <= dim,
                translation.len() == row,
                forall|i: int| 0 <= i < row ==> translation@[i] == Scalar::zero(),
                rotation.len() == row * dim,
                forall|i: int, j: int|
                    0 <= i < row && 0 <= j < dim ==> #[trigger] rotation@[i * dim + j] == identity_entry(
                        i,
                        j,
                    ),
            decreases dim - row,
        {
            let mut col: usize = 0;
            while col < dim
                invariant
                    0 < dim,
                    row < dim,
                    col <= dim,
                    rotation.len() == row * dim + col,
                    forall|i: int, j: int|
                        0 <= i < row && 0 <= j < dim ==> #[trigger] rotation@[i * dim + j]
                            == identity_entry(i, j),
                    forall|j: int|
                        0 <= j < col ==> #[trigger] rotation@[row * dim + j] == identity_entry(
                            row as int,
                            j,
                        ),
                decreases dim - col,
            {
                let ghost before = rotation@;
                let entry = if row == col {
                    Scalar::one()
                } else {
                    Scalar::zero()
                };
                rotation.push(entry);
                proof {
                    assert forall|i: int, j: int| 0 <= i < row && 0 <= j < dim implies #[trigger] rotation@[i
                        * dim + j] == identity_entry(i, j) by {
                        lemma_table_index(row as nat, dim as nat, i as nat, j as nat);
                        assert(rotation@[i * dim + j] == before[i * dim + j]);
                    }
                    assert forall|j: int| 0 <= j < col + 1 implies #[trigger] rotation@[row * dim + j]
                        == identity_entry(row as int, j) by {
                        if j < col {
                            assert(rotation@[row * dim + j] == before[row * dim + j]);
                        }
                    }
                }
                col = col + 1;
            }
            translation.push(Scalar::zero());
            proof {
                assert(row * dim + dim == (row + 1) * dim) by (nonlinear_arith);
                assert forall|i: int, j: int| 0 <= i < row + 1 && 0 <= j < dim implies #[trigger] rotation@[i
                    * dim + j] == identity_entry(i, j) by {
                    if i == row {
                        assert(rotation@[row * dim + j] == identity_entry(row as int, j));
                    }
                }
            }
            row = row + 1;
        }
        proof {
            lemma_constant_values();
        }
        let t = Transform { dim, rotation, translation, scale: Scalar::one() };
        proof {
            t.lemma_shape();
        }
        Some(t)
    }

    /// The transform with this rotation, given row after row, this translation
    /// and this scale. There is one when the translation has at least one
    /// entry, the rotation is square of the same dimension, and the scale is a
    /// number above zero.
    pub fn new(rotation: Vec<Scalar>, translation: Vec<Scalar>, scale: Scalar) -> (r: Option<
        Transform,
    >)
        ensures
            r.is_some() <==> {
                &&& translation@.len() > 0
                &&& rotation@.len() == translation@.len() * translation@.len()
                &&& scale.is_positive()
            },
            r matches Some(t) ==> {
                &&& t.well_formed()
                &&& t.spec_dim() == translation@.len()
                &&& t.spec_rotation() == rotation@
                &&& t@.rotation == rows_of(rotation@, translation@.len())
                &&& t@.translation == translation@
                &&& t@.scale == scale
            },
    {
        let dim: usize = translation.len();
        if dim == 0 || !scale.is_positive() {
            return None;
        }
        let len: usize = rotation.len();
        match dim.checked_mul(dim) {
            Some(size) => {
                if len == size {
                    Some(Transform { dim, rotation, translation, scale })
                } else {
                    None
                }
            },
            None => None,
        }
    }

    /// The dimension of the points this transform applies to.
    #[verifier::when_used_as_spec(spec_dim)]
    pub fn dim(&self) -> (r: usize)
        ensures
            r == self.spec_dim(),
            r > 0,
    {
        proof {
            use_type_invariant(self);
        }
        self.dim
    }

    /// The rotation matrix, row after row.
    pub fn rotation(&self) -> (r: &Vec<Scalar>)
        ensures
            r@ == self.spec_rotation(),
            r@.len() == self.spec_dim() * self.spec_dim(),
    {
        proof {
            use_type_invariant(self);
        }
        &self.rotation
    }

    /// The translation.
    pub fn translation(&self) -> (r: &Vec<Scalar>)
        ensures
            r@ == self@.translation,
            r@.len() == self.spec_dim(),
    {
        proof {
            use_type_invariant(self);
        }
        &self.translation
    }

    /// The uniform scale, a number above zero.
    pub fn scale(&self) -> (r: Scalar)
        ensures
            r == self@.scale,
            r.is_positive(),
    {
        proof {
            use_type_invariant(self);
        }
        self.scale
    }
}

impl Clone for Transform {
    fn clone(&self) -> (r: Self)
        ensures
            r.spec_dim() == self.spec_dim(),
            r.spec_rotation() == self.spec_rotation(),
            r@ == self@,
    {
        proof {
            use_type_invariant(self);
        }
        let rotation = self.rotation.clone();
        let translation = self.translation.clone();
        assert(rotation@ =~= self.rotation@);
        assert(translation@ =~= self.translation@);
        Transform { dim: self.dim, rotation, translation, scale: self.scale }
    }
}

/// The total correspondence mass must be a number above zero: without it no
/// correspondence signal remains to estimate from.
pub fn check_mass(mass: Scalar) -> (r: Result<(), Error>)
    ensures
        r == if mass.is_positive() {
            Ok::<(), Error>(())
        } else {
            Err(Error::DegenerateConvergence(DegenerateConvergence::Mass(mass)))
        },
{
    if mass.is_positive() {
        Ok(())
    } else {
        Err(Error::DegenerateConvergence(DegenerateConvergence::Mass(mass)))
    }
}

/// The last diagonal entry `d` of `diag(1, ..., 1, d)` in the rotation
/// `V * diag(1, ..., 1, d) * Uᵗ`, given the determinant of `V * Uᵗ`.
/// Where reflections are allowed it is 1. Otherwise it is -1 for a negative
/// determinant, which turns the reflection back into a rotation, and 1 for
/// any other.
pub fn reflection_correction(config: &RunConfig, determinant: Scalar) -> (d: Scalar)
    ensures
        d == if !config@.allow_reflections && determinant.lt(Scalar::zero()) {
            Scalar::neg_one()
        } else {
            Scalar::one()
        },
{
    if !config.allow_reflections() && determinant.lt(Scalar::zero()) {
        Scalar::neg_one()
    } else {
        Scalar::one()
    }
}

/// The scale of the transform: 1 where the scale is fixed; else the estimate,
/// which must be a number above zero.
pub fn select_scale(config: &RunConfig, estimate: Scalar) -> (r: Result<Scalar, Error>)
    ensures
        r == if !config@.allow_scale {
            Ok::<Scalar, Error>(Scalar::one())
        } else if estimate.is_positive() {
            Ok(estimate)
        } else {
            Err(Error::DegenerateConvergence(DegenerateConvergence::Scale(estimate)))
        },
{
    if !config.allow_scale() {
        Ok(Scalar::one())
    } else if estimate.is_positive() {
        Ok(estimate)
    } else {
        Err(Error::DegenerateConvergence(DegenerateConvergence::Scale(estimate)))
    }
}

/// The pattern of 2^-20, the least bandwidth that a run goes on with.
pub const BANDWIDTH_FLOOR_BITS: u64 = 0x3eb0_0000_0000_0000;

/// The least bandwidth that a run goes on with: 2^-20, where the points are
/// normalized to a spread of 1.
///
/// The estimate of the bandwidth is a difference of two sums that grow alike
/// as the fit improves, so near the end of a run it is rounding noise, and
/// where the scale is fixed it turns negative before the fit is exact. The
/// floor lies far above that noise, which keeps the kernel wide enough for the
/// points that are not yet in place to be seen at all.
pub open spec fn spec_bandwidth_floor() -> Scalar {
    Scalar { bits: BANDWIDTH_FLOOR_BITS }
}

/// The least bandwidth that a run goes on with, 2^-20.
#[verifier::when_used_as_spec(spec_bandwidth_floor)]
pub fn bandwidth_floor() -> (r: Scalar)
    ensures
        r == spec_bandwidth_floor(),
{
    Scalar { bits: BANDWIDTH_FLOOR_BITS }
}

/// The least bandwidth is the number 2^-20, which is 2^1054 units of 2^-1074;
/// it lies between 0 and 1.
pub proof fn lemma_bandwidth_floor()
    ensures
        !bandwidth_floor().is_nan(),
        bandwidth_floor().value() == pow2(1054),
        bandwidth_floor().is_positive(),
        bandwidth_floor().lt(Scalar::one()),
{
    lemma_constant_values();
    lemma2_to64_rest();
    lemma_pow2_adds(52, 1002);
    lemma_pow2_pos(1054);
    lemma_pow2_strictly_increases(1054, 1074);
    assert(BANDWIDTH_FLOOR_BITS / HIDDEN_BIT == 1003 && BANDWIDTH_FLOOR_BITS % HIDDEN_BIT == 0);
    assert(HIDDEN_BIT == pow2(52));
}

/// What `floor_bandwidth` makes of an estimated bandwidth.
pub open spec fn floored(estimate: Scalar) -> Scalar {
    if estimate.ge(bandwidth_floor()) {
        estimate
    } else {
        bandwidth_floor()
    }
}

/// The bandwidth to go on with: the estimate, floored at 2^-20 so that it
/// stays a number above zero.
pub fn floor_bandwidth(estimate: Scalar) -> (sigma2: Scalar)
    ensures
        sigma2 == floored(estimate),
        sigma2.is_positive(),
{
    proof {
        lemma_floored(estimate);
    }
    if estimate.ge(bandwidth_floor()) {
        estimate
    } else {
        bandwidth_floor()
    }
}

/// A floored bandwidth is a number no less than 2^-20, hence above zero, and
/// flooring it again changes nothing.
pub proof fn lemma_floored(estimate: Scalar)
    ensures
        floored(estimate).ge(bandwidth_floor()),
        floored(estimate).is_positive(),
        floored(floored(estimate)) == floored(estimate),
{
    lemma_bandwidth_floor();
}

} // verus!
