//! Point sets: ordered sequences of points of one dimension.

use vstd::prelude::*;
use crate::scalar::Scalar;

verus! {

/// The points that a row-major table of coordinates holds.
pub open spec fn rows_of(coords: Seq<Scalar>, dim: nat) -> Seq<Seq<Scalar>>
    recommends
        dim > 0,
{
    Seq::new(
        coords.len() / dim,
        |i: int| coords.subrange(i * dim as int, i * dim as int + dim as int),
    )
}

/// In a table of `rows` rows of `dim` entries each, laid out row after row,
/// row `row` and its entry `col` lie inside the table.
pub proof fn lemma_table_index(rows: nat, dim: nat, row: nat, col: nat)
    requires
        row < rows,
        col < dim,
    ensures
        row * dim + col < rows * dim,
        row * dim + dim <= rows * dim,
{
    assert(row * dim + dim == (row + 1) * dim) by (nonlinear_arith);
    assert((row + 1) * dim <= rows * dim) by (nonlinear_arith)
        requires
            row + 1 <= rows,
    ;
}

/// An ordered set of points of one dimension: an N×D table of coordinates.
/// The order of the points identifies them.
#[derive(Debug, PartialEq, Eq)]
pub struct PointSet {
    rows: usize,
    dim: usize,
    coords: Vec<Scalar>,
}

impl PointSet {
    #[verifier::type_invariant]
    pub closed spec fn well_formed(&self) -> bool {
        &&& self.dim > 0
        &&& self.coords@.len() == self.rows * self.dim
    }

    /// The points in order, each a sequence of `spec_dim()` coordinates.
    pub closed spec fn view(&self) -> Seq<Seq<Scalar>> {
        rows_of(self.coords@, self.dim as nat)
    }

    /// The number of points.
    pub closed spec fn spec_len(&self) -> usize {
        self.rows
    }

    /// The dimension of every point.
    pub closed spec fn spec_dim(&self) -> usize {
        self.dim
    }

    /// The coordinates, point after point.
    pub closed spec fn spec_coords(&self) -> Seq<Scalar> {
        self.coords@
    }

    /// A well-formed set holds `spec_len()` points of `spec_dim()` coordinates
    /// each, laid out one after another in `spec_coords()`.
    pub proof fn lemma_layout(&self)
        requires
            self.well_formed(),
        ensures
            self.spec_dim() > 0,
            self@.len() == self.spec_len(),
            self.spec_coords().len() == self.spec_len() * self.spec_dim(),
            self@ == rows_of(self.spec_coords(), self.spec_dim() as nat),
            forall|i: int| 0 <= i < self.spec_len() ==> (#[trigger] self@[i]).len() == self.spec_dim(),
            forall|i: int, j: int|
                0 <= i < self.spec_len() && 0 <= j < self.spec_dim() ==> #[trigger] self@[i][j]
                    == self.spec_coords()[i * self.spec_dim() + j],
    {
        let d = self.dim as nat;
        let n = self.rows as nat;
        assert((n * d) / d == n) by (nonlinear_arith)
            requires
                d > 0,
        ;
        assert forall|i: int| 0 <= i < self.spec_len() implies (#[trigger] self@[i]).len() == d by {
            lemma_table_index(n, d, i as nat, 0);
        }
        assert forall|i: int, j: int|
            0 <= i < self.spec_len() && 0 <= j < self.spec_dim() implies #[trigger] self@[i][j]
                == self.spec_coords()[i * self.spec_dim() + j] by {
            lemma_table_index(n, d, i as nat, j as nat);
        }
    }

    /// The point set whose points have `dim` coordinates each, read one after
    /// another from `coords`. There is none when `dim` is zero or `coords`
    /// does not hold a whole number of points.
    pub fn new(dim: usize, coords: Vec<Scalar>) -> (r: Option<PointSet>)
        ensures
            r.is_some() <==> dim > 0 && coords@.len() % (dim as nat) == 0,
            r matches Some(p) ==> {
                &&& p.well_formed()
                &&& p.spec_dim() == dim
                &&& p.spec_len() == coords@.len() / (dim as nat)
                &&& p.spec_coords() == coords@
                &&& p@ == rows_of(coords@, dim as nat)
            },
    {
        if dim == 0 || coords.len() % dim != 0 {
            return None;
        }
        let rows: usize = coords.len() / dim;
        proof {
            let len = coords@.len() as int;
            let d = dim as int;
            assert(len == (len / d) * d) by (nonlinear_arith)
                requires
                    d > 0,
                    len % d == 0,
            ;
        }
        Some(PointSet { rows, dim, coords })
    }

    /// The number of points.
    #[verifier::when_used_as_spec(spec_len)]
    pub fn len(&self) -> (r: usize)
        ensures
            r == self.spec_len(),
            r == self@.len(),
    {
        proof {
            use_type_invariant(self);
            self.lemma_layout();
        }
        self.rows
    }

    /// Whether the set has no points.
    pub fn is_empty(&self) -> (r: bool)
        ensures
            r == (self.spec_len() == 0),
    {
        self.len() == 0
    }

    /// The dimension of every point.
    #[verifier::when_used_as_spec(spec_dim)]
    pub fn dim(&self) -> (r: usize)
        ensures
            r == self.spec_dim(),
            r > 0,
    {
        proof {
            use_type_invariant(self);
        }
        self.dim
    }

    /// The coordinates, point after point.
    pub fn coords(&self) -> (r: &Vec<Scalar>)
        ensures
            r@ == self.spec_coords(),
            r@.len() == self.spec_len() * self.spec_dim(),
    {
        proof {
            use_type_invariant(self);
            self.lemma_layout();
        }
        &self.coords
    }

    /// Coordinate `col` of point `row`, if there is one.
    pub fn get(&self, row: usize, col: usize) -> (r: Option<Scalar>)
        ensures
            r.is_some() <==> row < self.spec_len() && col < self.spec_dim(),
            r matches Some(x) ==> x == self@[row as int][col as int],
    {
        proof {
            use_type_invariant(self);
            self.lemma_layout();
        }
        if row < self.rows && col < self.dim {
            proof {
                lemma_table_index(self.rows as nat, self.dim as nat, row as nat, col as nat);
                assert(self.coords.len() == self.rows * self.dim);
                assert(0 <= row * self.dim) by (nonlinear_arith);
            }
            Some(self.coords[row * self.dim + col])
        } else {
            None
        }
    }
}

impl Clone for PointSet {
    fn clone(&self) -> (r: Self)
        ensures
            r.spec_dim() == self.spec_dim(),
            r.spec_len() == self.spec_len(),
            r.spec_coords() == self.spec_coords(),
            r@ == self@,
    {
        proof {
            use_type_invariant(self);
        }
        let coords = self.coords.clone();
        assert(coords@ =~= self.coords@);
        PointSet { rows: self.rows, dim: self.dim, coords }
    }
}

} // verus!
