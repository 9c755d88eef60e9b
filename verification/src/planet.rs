//! Gravity sources.
//!
//! Gravity is singular at the centre of a planet. The guard against it is
//! that a planet exerts no acceleration on the point at which it sits: the
//! gravity kernel is never asked about a separation of zero.

use vstd::prelude::*;
use crate::kernel::gravity_total;
use crate::scalar::Scalar;
use crate::vector::AbiDVec2;

verus! {

/// A body that exerts gravity on spacecraft. It does not move and is never
/// changed once made.
#[derive(Clone, Copy, Debug, PartialEq, Eq, Structural)]
pub struct Planet {
    pub mass: Scalar,
    pub radius: Scalar,
    pub position: AbiDVec2,
}

/// `accel` is the acceleration that `planet` gives an object of negligible
/// mass at the point `at`: what the gravity kernel makes of the two, and
/// the zero vector at the very point where the planet sits.
pub open spec fn attracts<G: Fn(&Planet, AbiDVec2) -> AbiDVec2>(
    gravity: &G,
    planet: &Planet,
    at: AbiDVec2,
    accel: AbiDVec2,
) -> bool {
    if planet.position.coincides(at) {
        accel == AbiDVec2::zero()
    } else {
        gravity.ensures((planet, at), accel)
    }
}

impl Planet {
    /// A planet of the given mass and radius, centred at `pos`.
    pub fn new(mass: Scalar, radius: Scalar, pos: AbiDVec2) -> (planet: Planet)
        ensures
            planet.mass == mass,
            planet.radius == radius,
            planet.position == pos,
    {
        Planet { mass, radius, position: pos }
    }

    /// Where the planet is centred.
    pub fn position(&self) -> (pos: AbiDVec2)
        ensures
            pos == self.position,
    {
        self.position
    }

    /// The gravitational acceleration that the planet gives an object of
    /// negligible mass at `pos`. At the very point where the planet sits it
    /// gives none.
    pub fn gravity_accel_on<G: Fn(&Planet, AbiDVec2) -> AbiDVec2>(
        &self,
        pos: AbiDVec2,
        gravity: &G,
    ) -> (accel: AbiDVec2)
        requires
            gravity_total(gravity),
        ensures
            attracts(gravity, self, pos, accel),
    {
        if self.position.coincides(pos) {
            return AbiDVec2::zero();
        }
        gravity(self, pos)
    }
}

impl Default for Planet {
    /// A massless point at the origin.
    fn default() -> (planet: Planet)
        ensures
            planet.mass == Scalar::zero(),
            planet.radius == Scalar::zero(),
            planet.position == AbiDVec2::zero(),
    {
        Planet { mass: Scalar::zero(), radius: Scalar::zero(), position: AbiDVec2::zero() }
    }
}

} // verus!
