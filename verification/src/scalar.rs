//! Binary64 numbers as bit patterns.
//!
//! Only what the simulation decides on is implemented here: whether a
//! number is zero, whether two numbers are equal, and the floor at zero.
//! All are exact readings of the IEEE 754 binary64 layout, one sign bit
//! above eleven exponent bits and fifty-two fraction bits: without the sign
//! bit, the patterns of numbers are ordered as the magnitudes of the
//! numbers are, and every pattern above that of infinity encodes no number.

use vstd::prelude::*;

verus! {

/// The sign bit of a binary64 bit pattern.
pub const SIGN_BIT: u64 = 0x8000_0000_0000_0000;

/// The bit pattern of positive infinity, the largest magnitude that is a number.
pub const INFINITY_BITS: u64 = 0x7FF0_0000_0000_0000;

/// A binary64 number, held by its bit pattern.
///
/// Two scalars are equal when their bit patterns are; numerically equal
/// zeros of opposite sign are different scalars, and so `is_zero` is the
/// test for zero.
#[derive(Clone, Copy, Debug, PartialEq, Eq, Structural)]
pub struct Scalar {
    pub bits: u64,
}

impl Scalar {
    /// The bit pattern with the sign bit cleared.
    pub open spec fn magnitude(self) -> int {
        if self.bits >= SIGN_BIT {
            self.bits - SIGN_BIT
        } else {
            self.bits as int
        }
    }

    /// The sign bit is set. This holds of negative zero too.
    pub open spec fn sign_negative(self) -> bool {
        self.bits >= SIGN_BIT
    }

    /// The pattern encodes no number.
    pub open spec fn is_nan(self) -> bool {
        self.magnitude() > INFINITY_BITS
    }

    /// The number is zero, of either sign.
    pub open spec fn spec_is_zero(self) -> bool {
        self.magnitude() == 0
    }

    /// Position of the number on the extended real line, in units that only
    /// keep the order: numbers compare as their ranks do. Both zeros have
    /// rank zero. Meaningless for a pattern that encodes no number.
    pub open spec fn rank(self) -> int {
        if self.sign_negative() {
            -self.magnitude()
        } else {
            self.magnitude()
        }
    }

    /// `self == other` as numbers; false when either encodes no number.
    /// Zeros of opposite sign are the same number.
    pub open spec fn spec_same_number(self, other: Scalar) -> bool {
        !self.is_nan() && !other.is_nan() && self.rank() == other.rank()
    }

    /// `self < other` as numbers; false when either encodes no number.
    pub open spec fn lt(self, other: Scalar) -> bool {
        !self.is_nan() && !other.is_nan() && self.rank() < other.rank()
    }

    /// `self <= other` as numbers; false when either encodes no number.
    pub open spec fn le(self, other: Scalar) -> bool {
        !self.is_nan() && !other.is_nan() && self.rank() <= other.rank()
    }

    /// The number is greater than zero.
    pub open spec fn is_positive(self) -> bool {
        !self.is_nan() && self.rank() > 0
    }

    /// Positive zero.
    pub open spec fn spec_zero() -> Scalar {
        Scalar { bits: 0 }
    }

    /// The greater of the number and zero; positive zero for what encodes no
    /// number.
    pub open spec fn spec_floor_at_zero(self) -> Scalar {
        if self.is_positive() {
            self
        } else {
            Scalar::spec_zero()
        }
    }

    /// The scalar with the given bit pattern.
    pub fn from_bits(bits: u64) -> (s: Scalar)
        ensures
            s.bits == bits,
    {
        Scalar { bits }
    }

    /// The bit pattern of the scalar.
    pub fn to_bits(self) -> (bits: u64)
        ensures
            bits == self.bits,
    {
        self.bits
    }

    /// Positive zero.
    #[verifier::when_used_as_spec(spec_zero)]
    pub fn zero() -> (s: Scalar)
        ensures
            s == Scalar::spec_zero(),
    {
        Scalar { bits: 0 }
    }

    /// Whether the number compares equal to zero.
    #[verifier::when_used_as_spec(spec_is_zero)]
    pub fn is_zero(self) -> (z: bool)
        ensures
            z == self.spec_is_zero(),
    {
        self.bits == 0 || self.bits == SIGN_BIT
    }

    /// Whether the two compare equal as numbers.
    #[verifier::when_used_as_spec(spec_same_number)]
    pub fn same_number(self, other: Scalar) -> (same: bool)
        ensures
            same == self.spec_same_number(other),
    {
        let mine: u64 = if self.bits >= SIGN_BIT {
            self.bits - SIGN_BIT
        } else {
            self.bits
        };
        let theirs: u64 = if other.bits >= SIGN_BIT {
            other.bits - SIGN_BIT
        } else {
            other.bits
        };
        mine <= INFINITY_BITS && theirs <= INFINITY_BITS && (self.bits == other.bits || (mine == 0
            && theirs == 0))
    }

    /// The greater of the number and zero. Negative numbers, both zeros and
    /// patterns that encode no number all give positive zero, so the result
    /// is never negative.
    #[verifier::when_used_as_spec(spec_floor_at_zero)]
    pub fn floor_at_zero(self) -> (floored: Scalar)
        ensures
            floored == self.spec_floor_at_zero(),
    {
        if 0 < self.bits && self.bits <= INFINITY_BITS {
            self
        } else {
            Scalar { bits: 0 }
        }
    }
}

impl Default for Scalar {
    /// Positive zero.
    fn default() -> (s: Scalar)
        ensures
            s == Scalar::zero(),
    {
        Scalar { bits: 0 }
    }
}

/// The floor at zero is never negative and never above a positive bound that
/// the number itself is below: flooring what is left of a positive quantity
/// after a strict decrease leaves a strict decrease.
pub proof fn lemma_floor_keeps_strict_decrease(before: Scalar, after: Scalar)
    requires
        before.is_positive(),
        after.lt(before),
    ensures
        after.floor_at_zero().lt(before),
        Scalar::zero().le(after.floor_at_zero()),
        !after.floor_at_zero().sign_negative(),
{
}

} // verus!
