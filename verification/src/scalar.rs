//! Real numbers as they cross the library boundary: IEEE-754 binary64 values,
//! held by their 64-bit pattern.
//!
//! The verifier reasons about integers, so a number is modelled by the integer
//! it stands for when counted in units of 2^-1074, the spacing of the smallest
//! subnormals. Every finite binary64 value is a whole multiple of that unit.

use vstd::prelude::*;
use vstd::arithmetic::power2::*;
use vstd::arithmetic::mul::*;

verus! {

/// The sign bit of a binary64 pattern.
pub const SIGN_BIT: u64 = 0x8000_0000_0000_0000;

/// The pattern of positive infinity; larger magnitudes are NaNs.
pub const INFINITY_BITS: u64 = 0x7ff0_0000_0000_0000;

/// 2^52: the weight of the implicit leading bit of a normal number's
/// significand, and the number of patterns per exponent.
pub const HIDDEN_BIT: u64 = 0x0010_0000_0000_0000;

/// The pattern of 1.
pub const ONE_BITS: u64 = 0x3ff0_0000_0000_0000;

/// The pattern of -1.
pub const NEG_ONE_BITS: u64 = 0xbff0_0000_0000_0000;

/// What the magnitude pattern `m` (a pattern with its sign bit cleared) stands
/// for, in units of 2^-1074.
///
/// Subnormals (exponent field 0) count their fraction directly. Normal numbers
/// place the hidden bit above the fraction and double once per exponent step.
/// The same formula is applied to the infinity pattern, whose result exceeds
/// every finite magnitude, so that it orders correctly.
pub open spec fn magnitude_of(m: u64) -> nat {
    let exponent = m / HIDDEN_BIT;
    let fraction = m % HIDDEN_BIT;
    if exponent == 0 {
        fraction as nat
    } else {
        ((HIDDEN_BIT + fraction) * pow2((exponent - 1) as nat)) as nat
    }
}

/// Larger magnitude patterns stand for larger magnitudes.
pub proof fn lemma_magnitude_increases(a: u64, b: u64)
    requires
        a < b,
    ensures
        magnitude_of(a) < magnitude_of(b),
{
    let ea = a / HIDDEN_BIT;
    let fa = a % HIDDEN_BIT;
    let eb = b / HIDDEN_BIT;
    let fb = b % HIDDEN_BIT;
    assert(ea <= eb);
    assert(ea == eb ==> fa < fb);
    if eb == 0 {
    } else {
        let pb = pow2((eb - 1) as nat);
        lemma_pow2_pos((eb - 1) as nat);
        if ea == eb {
            lemma_mul_strict_inequality(
                (HIDDEN_BIT + fa) as int,
                (HIDDEN_BIT + fb) as int,
                pb as int,
            );
        } else {
            // The whole binade of `a` lies below the first number of `b`'s.
            lemma_mul_inequality(HIDDEN_BIT as int, (HIDDEN_BIT + fb) as int, pb as int);
            assert(HIDDEN_BIT * pb <= magnitude_of(b));
            if ea == 0 {
                lemma_mul_inequality(1, pb as int, HIDDEN_BIT as int);
                assert(HIDDEN_BIT * 1 <= HIDDEN_BIT * pb) by {
                    lemma_mul_is_commutative(HIDDEN_BIT as int, pb as int);
                }
            } else {
                let pa = pow2((ea - 1) as nat);
                lemma_pow2_pos((ea - 1) as nat);
                lemma_pow2_unfold(ea as nat);
                lemma_mul_strict_inequality(
                    (HIDDEN_BIT + fa) as int,
                    2 * HIDDEN_BIT,
                    pa as int,
                );
                assert((2 * HIDDEN_BIT) * pa == HIDDEN_BIT * (2 * pa)) by {
                    lemma_mul_is_associative(HIDDEN_BIT as int, 2, pa as int);
                    lemma_mul_is_commutative(HIDDEN_BIT as int, 2);
                }
                assert(magnitude_of(a) < HIDDEN_BIT * pow2(ea as nat));
                if ea < eb - 1 {
                    lemma_pow2_strictly_increases(ea as nat, (eb - 1) as nat);
                }
                lemma_mul_left_inequality(HIDDEN_BIT as int, pow2(ea as nat) as int, pb as int);
            }
        }
    }
}

/// Magnitude patterns and the magnitudes they stand for are ordered alike, and
/// only the zero pattern stands for zero.
pub proof fn lemma_magnitude_order(a: u64, b: u64)
    ensures
        a < b <==> magnitude_of(a) < magnitude_of(b),
        a == b <==> magnitude_of(a) == magnitude_of(b),
        a == 0 <==> magnitude_of(a) == 0,
{
    if a < b {
        lemma_magnitude_increases(a, b);
    }
    if b < a {
        lemma_magnitude_increases(b, a);
    }
    if 0 < a {
        lemma_magnitude_increases(0, a);
    }
}

/// A binary64 number, held by its bit pattern.
///
/// `==` on scalars compares patterns: it tells `-0` from `0` and a NaN equals
/// itself. The numeric comparisons are [`Scalar::lt`] and its relatives.
#[derive(Clone, Copy, Debug, PartialEq, Eq, Structural)]
pub struct Scalar {
    pub bits: u64,
}

impl Scalar {
    /// The sign bit is set.
    pub open spec fn sign(self) -> bool {
        self.bits >= SIGN_BIT
    }

    /// The pattern with the sign bit cleared.
    pub open spec fn magnitude_bits(self) -> u64 {
        if self.bits >= SIGN_BIT {
            (self.bits - SIGN_BIT) as u64
        } else {
            self.bits
        }
    }

    /// The number the pattern stands for, in units of 2^-1074. Meaningful
    /// unless the pattern is a NaN; an infinity takes a value beyond every
    /// finite one.
    pub open spec fn value(self) -> int {
        if self.sign() {
            -(magnitude_of(self.magnitude_bits()) as int)
        } else {
            magnitude_of(self.magnitude_bits()) as int
        }
    }

    /// The pattern is not a number.
    pub open spec fn spec_is_nan(self) -> bool {
        self.magnitude_bits() > INFINITY_BITS
    }

    /// The number is zero, of either sign.
    pub open spec fn spec_is_zero(self) -> bool {
        self.value() == 0
    }

    /// The number is greater than zero.
    pub open spec fn spec_is_positive(self) -> bool {
        !self.spec_is_nan() && self.value() > 0
    }

    /// `self < other` as numbers. False when either is a NaN.
    pub open spec fn spec_lt(self, other: Scalar) -> bool {
        !self.spec_is_nan() && !other.spec_is_nan() && self.value() < other.value()
    }

    /// `self <= other` as numbers. False when either is a NaN.
    pub open spec fn spec_le(self, other: Scalar) -> bool {
        !self.spec_is_nan() && !other.spec_is_nan() && self.value() <= other.value()
    }

    /// `self > other` as numbers. False when either is a NaN.
    pub open spec fn spec_gt(self, other: Scalar) -> bool {
        other.spec_lt(self)
    }

    /// `self >= other` as numbers. False when either is a NaN.
    pub open spec fn spec_ge(self, other: Scalar) -> bool {
        other.spec_le(self)
    }

    /// Positive zero.
    pub open spec fn spec_zero() -> Scalar {
        Scalar { bits: 0 }
    }

    /// The number 1.
    pub open spec fn spec_one() -> Scalar {
        Scalar { bits: ONE_BITS }
    }

    /// The number -1.
    pub open spec fn spec_neg_one() -> Scalar {
        Scalar { bits: NEG_ONE_BITS }
    }

    /// The scalar with the given pattern.
    pub fn from_bits(bits: u64) -> (r: Scalar)
        ensures
            r.bits == bits,
    {
        Scalar { bits }
    }

    /// The pattern of this scalar.
    pub fn to_bits(self) -> (r: u64)
        ensures
            r == self.bits,
    {
        self.bits
    }

    /// Positive zero.
    #[verifier::when_used_as_spec(spec_zero)]
    pub fn zero() -> (r: Scalar)
        ensures
            r == Scalar::spec_zero(),
    {
        Scalar { bits: 0 }
    }

    /// The number 1.
    #[verifier::when_used_as_spec(spec_one)]
    pub fn one() -> (r: Scalar)
        ensures
            r == Scalar::spec_one(),
    {
        Scalar { bits: ONE_BITS }
    }

    /// The number -1.
    #[verifier::when_used_as_spec(spec_neg_one)]
    pub fn neg_one() -> (r: Scalar)
        ensures
            r == Scalar::spec_neg_one(),
    {
        Scalar { bits: NEG_ONE_BITS }
    }

    fn magnitude(self) -> (m: u64)
        ensures
            m == self.magnitude_bits(),
    {
        if self.bits >= SIGN_BIT {
            self.bits - SIGN_BIT
        } else {
            self.bits
        }
    }

    /// Whether the pattern is a NaN.
    #[verifier::when_used_as_spec(spec_is_nan)]
    pub fn is_nan(self) -> (r: bool)
        ensures
            r == self.spec_is_nan(),
    {
        self.magnitude() > INFINITY_BITS
    }

    /// Whether the number is zero, of either sign.
    #[verifier::when_used_as_spec(spec_is_zero)]
    pub fn is_zero(self) -> (r: bool)
        ensures
            r == self.spec_is_zero(),
    {
        proof {
            lemma_magnitude_order(self.magnitude_bits(), 0);
        }
        self.magnitude() == 0
    }

    /// Whether the number is greater than zero.
    #[verifier::when_used_as_spec(spec_is_positive)]
    pub fn is_positive(self) -> (r: bool)
        ensures
            r == self.spec_is_positive(),
    {
        proof {
            lemma_magnitude_order(self.magnitude_bits(), 0);
        }
        let m: u64 = self.magnitude();
        self.bits < SIGN_BIT && 0 < m && m <= INFINITY_BITS
    }

    /// Numeric `self < other`.
    #[verifier::when_used_as_spec(spec_lt)]
    pub fn lt(self, other: Scalar) -> (r: bool)
        ensures
            r == self.spec_lt(other),
    {
        let a: u64 = self.magnitude();
        let b: u64 = other.magnitude();
        if a > INFINITY_BITS || b > INFINITY_BITS {
            return false;
        }
        proof {
            lemma_magnitude_order(a, b);
            lemma_magnitude_order(b, a);
            lemma_magnitude_order(b, 0);
        }
        if self.bits >= SIGN_BIT {
            if other.bits >= SIGN_BIT {
                b < a
            } else {
                a != 0 || b != 0
            }
        } else {
            if other.bits >= SIGN_BIT {
                false
            } else {
                a < b
            }
        }
    }

    /// Numeric `self <= other`.
    #[verifier::when_used_as_spec(spec_le)]
    pub fn le(self, other: Scalar) -> (r: bool)
        ensures
            r == self.spec_le(other),
    {
        let a: u64 = self.magnitude();
        let b: u64 = other.magnitude();
        if a > INFINITY_BITS || b > INFINITY_BITS {
            return false;
        }
        proof {
            lemma_magnitude_order(a, b);
            lemma_magnitude_order(b, a);
            lemma_magnitude_order(a, 0);
        }
        if self.bits >= SIGN_BIT {
            if other.bits >= SIGN_BIT {
                b <= a
            } else {
                true
            }
        } else {
            if other.bits >= SIGN_BIT {
                a == 0 && b == 0
            } else {
                a <= b
            }
        }
    }

    /// Numeric `self > other`.
    #[verifier::when_used_as_spec(spec_gt)]
    pub fn gt(self, other: Scalar) -> (r: bool)
        ensures
            r == self.spec_gt(other),
    {
        other.lt(self)
    }

    /// Numeric `self >= other`.
    #[verifier::when_used_as_spec(spec_ge)]
    pub fn ge(self, other: Scalar) -> (r: bool)
        ensures
            r == self.spec_ge(other),
    {
        other.le(self)
    }
}

/// Two numbers are the same number exactly if they have the same pattern or
/// are both zero: apart from the two zeros, every number has one pattern.
pub proof fn lemma_same_number(a: Scalar, b: Scalar)
    requires
        !a.is_nan(),
        !b.is_nan(),
    ensures
        a.value() == b.value() <==> a == b || (a.is_zero() && b.is_zero()),
        a.le(b) && b.le(a) <==> a.value() == b.value(),
{
    lemma_magnitude_order(a.magnitude_bits(), b.magnitude_bits());
    lemma_magnitude_order(a.magnitude_bits(), 0);
    lemma_magnitude_order(b.magnitude_bits(), 0);
}

/// On numbers the comparisons are those of a total order: of two numbers one
/// is less than the other or they are the same number, and never two of these
/// at once; what is less than something that is less than a third is less
/// than the third. A NaN compares with nothing, itself included.
pub proof fn lemma_order(a: Scalar, b: Scalar, c: Scalar)
    ensures
        !a.is_nan() && !b.is_nan() ==> (a.lt(b) || b.lt(a) || a.value() == b.value()),
        !(a.lt(b) && b.lt(a)),
        a.lt(b) ==> a.le(b) && !b.le(a),
        a.le(b) <==> a.lt(b) || (!a.is_nan() && !b.is_nan() && a.value() == b.value()),
        a.lt(b) && b.lt(c) ==> a.lt(c),
        a.le(b) && b.le(c) ==> a.le(c),
        a.lt(b) && b.le(c) ==> a.lt(c),
        a.le(b) && b.lt(c) ==> a.lt(c),
        a.is_nan() ==> !a.lt(b) && !b.lt(a) && !a.le(b) && !b.le(a) && !a.le(a),
        a.is_positive() <==> Scalar::zero().lt(a),
        a.is_zero() <==> a.le(Scalar::zero()) && Scalar::zero().le(a),
{
    lemma_magnitude_order(a.magnitude_bits(), 0);
}

/// The named constants stand for 0, 1 and -1: in units of 2^-1074, for 0,
/// 2^1074 and -2^1074.
pub proof fn lemma_constant_values()
    ensures
        !Scalar::zero().is_nan() && Scalar::zero().value() == 0,
        !Scalar::one().is_nan() && Scalar::one().value() == pow2(1074),
        !Scalar::neg_one().is_nan() && Scalar::neg_one().value() == -pow2(1074),
        Scalar::neg_one().lt(Scalar::zero()),
        Scalar::zero().lt(Scalar::one()),
{
    lemma2_to64_rest();
    lemma_pow2_adds(52, 1022);
    lemma_pow2_pos(1074);
    assert(ONE_BITS / HIDDEN_BIT == 1023 && ONE_BITS % HIDDEN_BIT == 0);
    assert((NEG_ONE_BITS - SIGN_BIT) == ONE_BITS);
    assert(HIDDEN_BIT == pow2(52));
}

} // verus!
