//! Double-precision scalars held by their bit patterns.
//!
//! The library never does arithmetic on a scalar: sums, products and roots
//! are computed by the caller. What the library does is compare scalars and
//! choose between them, and both are exact functions of the IEEE-754
//! binary64 encoding: one sign bit, then eleven exponent bits, then
//! fifty-two fraction bits. With the sign set aside, a larger encoding is a
//! larger magnitude, and every encoding above that of infinity is a NaN.

use vstd::prelude::*;

verus! {

/// The sign bit of an encoding.
pub const SIGN_BIT: u64 = 0x8000_0000_0000_0000;

/// The encoding of positive infinity.
pub const INFINITY_BITS: u64 = 0x7FF0_0000_0000_0000;

/// The encoding of 1.
pub const ONE_BITS: u64 = 0x3FF0_0000_0000_0000;

/// A binary64 value, identified by its encoding. Two scalars are `==` when
/// their encodings are the same, which tells `0` from `-0` and one NaN from
/// another; numeric comparison is [`Scalar::lt`].
#[derive(Clone, Copy, Debug, PartialEq, Eq, Structural)]
pub struct Scalar {
    pub bits: u64,
}

impl Scalar {
    /// Whether the sign bit is set.
    pub open spec fn negative(self) -> bool {
        self.bits >= SIGN_BIT
    }

    /// The encoding without its sign bit.
    pub open spec fn magnitude(self) -> int {
        if self.bits >= SIGN_BIT {
            self.bits - SIGN_BIT
        } else {
            self.bits as int
        }
    }

    /// Whether the encoding is a NaN.
    pub open spec fn nan(self) -> bool {
        self.magnitude() > INFINITY_BITS
    }

    /// An integer that grows with the number encoded: the magnitude, with
    /// the sign applied. Both zeros have ordinal 0.
    pub open spec fn ordinal(self) -> int {
        if self.negative() {
            -self.magnitude()
        } else {
            self.magnitude()
        }
    }

    /// The absolute value: the same encoding with the sign bit cleared.
    pub open spec fn spec_abs(self) -> Scalar {
        if self.bits >= SIGN_BIT {
            Scalar { bits: (self.bits - SIGN_BIT) as u64 }
        } else {
            self
        }
    }

    /// Numeric "less than": false when either side is a NaN, and `-0` is not
    /// less than `0`.
    pub open spec fn spec_lt(self, other: Scalar) -> bool {
        !self.nan() && !other.nan() && self.ordinal() < other.ordinal()
    }

    /// The place of the encoding in the total order of binary64: negative
    /// NaNs first, then the numbers from negative infinity up to `-0`, then
    /// `0` up to infinity, then the positive NaNs.
    pub open spec fn total_rank(self) -> int {
        if self.negative() {
            -self.magnitude() - 1
        } else {
            self.magnitude()
        }
    }

    /// The scalar with the given encoding.
    pub fn from_bits(bits: u64) -> (s: Scalar)
        ensures
            s.bits == bits,
    {
        Scalar { bits }
    }

    /// The encoding.
    pub fn to_bits(self) -> (bits: u64)
        ensures
            bits == self.bits,
    {
        self.bits
    }

    /// The scalar 0.
    pub fn zero() -> (s: Scalar)
        ensures
            s.bits == 0,
    {
        Scalar { bits: 0 }
    }

    /// The scalar 1.
    pub fn one() -> (s: Scalar)
        ensures
            s.bits == ONE_BITS,
    {
        Scalar { bits: ONE_BITS }
    }

    /// The absolute value: the same encoding with the sign bit cleared.
    pub fn abs(self) -> (a: Scalar)
        ensures
            a == self.spec_abs(),
            !a.negative(),
            a.magnitude() == self.magnitude(),
            a.nan() == self.nan(),
    {
        if self.bits >= SIGN_BIT {
            Scalar { bits: self.bits - SIGN_BIT }
        } else {
            self
        }
    }

    pub fn is_nan(self) -> (r: bool)
        ensures
            r == self.nan(),
    {
        self.abs().bits > INFINITY_BITS
    }

    /// Numeric `self < other`.
    pub fn lt(self, other: Scalar) -> (r: bool)
        ensures
            r == self.spec_lt(other),
    {
        if self.is_nan() || other.is_nan() {
            return false;
        }
        let a: u64 = self.abs().bits;
        let b: u64 = other.abs().bits;
        let a_neg: bool = self.bits >= SIGN_BIT;
        let b_neg: bool = other.bits >= SIGN_BIT;
        if a_neg {
            if b_neg {
                b < a
            } else {
                a > 0 || b > 0
            }
        } else {
            if b_neg {
                false
            } else {
                a < b
            }
        }
    }

    /// Numeric `self > other`.
    pub fn gt(self, other: Scalar) -> (r: bool)
        ensures
            r == other.spec_lt(self),
    {
        other.lt(self)
    }

    /// The key by which the total order compares: `a` comes before `b` in
    /// that order exactly when `a.total_key() < b.total_key()`.
    pub fn total_key(self) -> (k: i64)
        ensures
            k == self.total_rank(),
    {
        if self.bits >= SIGN_BIT {
            let m: u64 = self.bits - SIGN_BIT;
            -(m as i64) - 1
        } else {
            self.bits as i64
        }
    }
}

/// No scalar is less than itself, and of two scalars at most one is less
/// than the other.
pub proof fn lemma_lt_asymmetric(a: Scalar, b: Scalar)
    ensures
        !a.spec_lt(a),
        !(a.spec_lt(b) && b.spec_lt(a)),
{
}

/// "Less than" is transitive.
pub proof fn lemma_lt_transitive(a: Scalar, b: Scalar, c: Scalar)
    requires
        a.spec_lt(b),
        b.spec_lt(c),
    ensures
        a.spec_lt(c),
{
}

/// A NaN is neither less nor greater than anything.
pub proof fn lemma_nan_unordered(a: Scalar, b: Scalar)
    requires
        a.nan(),
    ensures
        !a.spec_lt(b),
        !b.spec_lt(a),
{
}

/// The total order tells all encodings apart.
pub proof fn lemma_total_rank_injective(a: Scalar, b: Scalar)
    requires
        a.total_rank() == b.total_rank(),
    ensures
        a == b,
{
}

/// The total order agrees with the numeric one wherever the latter decides.
pub proof fn lemma_lt_implies_total(a: Scalar, b: Scalar)
    requires
        a.spec_lt(b),
    ensures
        a.total_rank() < b.total_rank(),
{
}

} // verus!
