//! Planar vectors and kinematic samples.

use vstd::prelude::*;
use crate::scalar::Scalar;

verus! {

/// A vector in the plane of the simulation.
#[derive(Clone, Copy, Debug, PartialEq, Eq, Structural)]
pub struct AbiDVec2 {
    pub x: Scalar,
    pub y: Scalar,
}

impl AbiDVec2 {
    /// The vector with both components positive zero.
    pub open spec fn spec_zero() -> AbiDVec2 {
        AbiDVec2 { x: Scalar::zero(), y: Scalar::zero() }
    }

    /// The two vectors are the same point: their components compare equal
    /// as numbers.
    pub open spec fn spec_coincides(self, other: AbiDVec2) -> bool {
        self.x.same_number(other.x) && self.y.same_number(other.y)
    }

    /// The vector with both components positive zero.
    #[verifier::when_used_as_spec(spec_zero)]
    pub fn zero() -> (v: AbiDVec2)
        ensures
            v == AbiDVec2::spec_zero(),
    {
        AbiDVec2 { x: Scalar::zero(), y: Scalar::zero() }
    }

    /// Whether the two vectors are the same point.
    #[verifier::when_used_as_spec(spec_coincides)]
    pub fn coincides(self, other: AbiDVec2) -> (same: bool)
        ensures
            same == self.spec_coincides(other),
    {
        self.x.same_number(other.x) && self.y.same_number(other.y)
    }
}

impl Default for AbiDVec2 {
    /// The zero vector.
    fn default() -> (v: AbiDVec2)
        ensures
            v == AbiDVec2::zero(),
    {
        AbiDVec2::zero()
    }
}

/// A velocity together with the position at which it is held: one sample of
/// a flight.
#[derive(Clone, Copy, Debug, PartialEq, Eq, Structural)]
pub struct VelPos {
    pub vel: AbiDVec2,
    pub pos: AbiDVec2,
}

impl Default for VelPos {
    /// At rest at the origin.
    fn default() -> (s: VelPos)
        ensures
            s.vel == AbiDVec2::zero(),
            s.pos == AbiDVec2::zero(),
    {
        VelPos { vel: AbiDVec2::zero(), pos: AbiDVec2::zero() }
    }
}

} // verus!
