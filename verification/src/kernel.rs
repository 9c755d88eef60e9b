//! The arithmetic that the simulation is handed.
//!
//! The simulation decides and keeps books; the numbers themselves are
//! worked out by kernels that the caller supplies:
//!
//! - `thrust`: the acceleration that the engine of a craft gives it, for a
//!   craft that has fuel: thrust times throttle over total mass, turned by
//!   the heading;
//! - `gravity`: the acceleration that a planet gives an object of negligible
//!   mass at a point away from its centre;
//! - `combine`: the sum of two accelerations;
//! - `advance`: a vector moved along a rate for a time, `base + rate * dt`,
//!   which is each half of an integration step;
//! - `burn`: the fuel that a burn of a given duration leaves in a craft,
//!   before it is floored at zero;
//! - `rocket`: the velocity change that the fuel of a craft is good for,
//!   for a craft that has fuel.
//!
//! A kernel is any function value of the right shape. What the simulation
//! promises is stated over what the kernel's own contract admits, so a
//! kernel that promises nothing still gets the bookkeeping right; it must
//! only accept every input.

use vstd::prelude::*;
use crate::craft::Craft;
use crate::planet::Planet;
use crate::scalar::Scalar;
use crate::vector::AbiDVec2;

verus! {

/// The thrust kernel accepts every craft.
pub open spec fn thrust_total<T: Fn(&Craft) -> AbiDVec2>(thrust: &T) -> bool {
    forall|craft: &Craft| #[trigger] thrust.requires((craft,))
}

/// The gravity kernel accepts every planet and point.
pub open spec fn gravity_total<G: Fn(&Planet, AbiDVec2) -> AbiDVec2>(gravity: &G) -> bool {
    forall|planet: &Planet, at: AbiDVec2| #[trigger] gravity.requires((planet, at))
}

/// The combine kernel accepts every two accelerations.
pub open spec fn combine_total<C: Fn(AbiDVec2, AbiDVec2) -> AbiDVec2>(combine: &C) -> bool {
    forall|a: AbiDVec2, b: AbiDVec2| #[trigger] combine.requires((a, b))
}

/// The advance kernel accepts every vector, rate and time step.
pub open spec fn advance_total<A: Fn(AbiDVec2, AbiDVec2, Scalar) -> AbiDVec2>(advance: &A) -> bool {
    forall|base: AbiDVec2, rate: AbiDVec2, dt: Scalar| #[trigger] advance.requires((base, rate, dt))
}

/// The burn kernel accepts every craft and duration.
pub open spec fn burn_total<B: Fn(&Craft, Scalar) -> Scalar>(burn: &B) -> bool {
    forall|craft: &Craft, time: Scalar| #[trigger] burn.requires((craft, time))
}

/// The rocket kernel accepts every craft.
pub open spec fn rocket_total<R: Fn(&Craft) -> Scalar>(rocket: &R) -> bool {
    forall|craft: &Craft| #[trigger] rocket.requires((craft,))
}

/// The three kernels of unpowered flight accept every input.
pub open spec fn flight_total<
    G: Fn(&Planet, AbiDVec2) -> AbiDVec2,
    C: Fn(AbiDVec2, AbiDVec2) -> AbiDVec2,
    A: Fn(AbiDVec2, AbiDVec2, Scalar) -> AbiDVec2,
>(gravity: &G, combine: &C, advance: &A) -> bool {
    gravity_total(gravity) && combine_total(combine) && advance_total(advance)
}

/// The gravity kernel admits one result for each input.
pub open spec fn gravity_deterministic<G: Fn(&Planet, AbiDVec2) -> AbiDVec2>(gravity: &G) -> bool {
    forall|planet: &Planet, at: AbiDVec2, a: AbiDVec2, b: AbiDVec2|
        #![trigger gravity.ensures((planet, at), a), gravity.ensures((planet, at), b)]
        gravity.ensures((planet, at), a) && gravity.ensures((planet, at), b) ==> a == b
}

/// The combine kernel admits one result for each input.
pub open spec fn combine_deterministic<C: Fn(AbiDVec2, AbiDVec2) -> AbiDVec2>(combine: &C) -> bool {
    forall|x: AbiDVec2, y: AbiDVec2, a: AbiDVec2, b: AbiDVec2|
        #![trigger combine.ensures((x, y), a), combine.ensures((x, y), b)]
        combine.ensures((x, y), a) && combine.ensures((x, y), b) ==> a == b
}

/// The advance kernel admits one result for each input.
pub open spec fn advance_deterministic<A: Fn(AbiDVec2, AbiDVec2, Scalar) -> AbiDVec2>(
    advance: &A,
) -> bool {
    forall|base: AbiDVec2, rate: AbiDVec2, dt: Scalar, a: AbiDVec2, b: AbiDVec2|
        #![trigger advance.ensures((base, rate, dt), a), advance.ensures((base, rate, dt), b)]
        advance.ensures((base, rate, dt), a) && advance.ensures((base, rate, dt), b) ==> a == b
}

/// Each of the three kernels of unpowered flight admits one result for each
/// input.
pub open spec fn flight_deterministic<
    G: Fn(&Planet, AbiDVec2) -> AbiDVec2,
    C: Fn(AbiDVec2, AbiDVec2) -> AbiDVec2,
    A: Fn(AbiDVec2, AbiDVec2, Scalar) -> AbiDVec2,
>(gravity: &G, combine: &C, advance: &A) -> bool {
    gravity_deterministic(gravity) && combine_deterministic(combine) && advance_deterministic(
        advance,
    )
}

} // verus!
