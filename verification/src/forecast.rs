//! What it means for samples to be an unpowered flight.
//!
//! A forecast is a chain: each sample is one unpowered step after the one
//! before it, and the first follows the state that the forecast starts
//! from. An unpowered step sums the accelerations that the planets give at
//! the sample's position, in the order in which the planets are listed and
//! starting from the zero vector, and integrates the sample under that sum.
//! Integration is semi-implicit: the velocity is advanced first, by the
//! acceleration, and the position is then advanced by the velocity that
//! this gave.

use vstd::prelude::*;
use crate::kernel::{advance_total, combine_total, flight_total, gravity_total};
use crate::planet::{attracts, Planet};
use crate::scalar::Scalar;
use crate::vector::{AbiDVec2, VelPos};

verus! {

/// `sum` is `before` with the acceleration that `planet` gives at the point
/// `at` added to it.
pub open spec fn pulls_on<
    G: Fn(&Planet, AbiDVec2) -> AbiDVec2,
    C: Fn(AbiDVec2, AbiDVec2) -> AbiDVec2,
>(
    gravity: &G,
    combine: &C,
    before: AbiDVec2,
    planet: &Planet,
    at: AbiDVec2,
    sum: AbiDVec2,
) -> bool {
    exists|accel: AbiDVec2|
        attracts(gravity, planet, at, accel) && #[trigger] combine.ensures((before, accel), sum)
}

/// `sum` is what adding the accelerations that `planets` give at the point
/// `at` onto `init` gives, one planet after the other in their order.
pub open spec fn pulled<
    G: Fn(&Planet, AbiDVec2) -> AbiDVec2,
    C: Fn(AbiDVec2, AbiDVec2) -> AbiDVec2,
>(
    gravity: &G,
    combine: &C,
    planets: Seq<Planet>,
    at: AbiDVec2,
    init: AbiDVec2,
    sum: AbiDVec2,
) -> bool
    decreases planets.len(),
{
    if planets.len() == 0 {
        sum == init
    } else {
        exists|before: AbiDVec2|
            pulled(gravity, combine, planets.drop_last(), at, init, before) && #[trigger] pulls_on(
                gravity,
                combine,
                before,
                &planets.last(),
                at,
                sum,
            )
    }
}

/// `to` is `from` one integration step of duration `dt` under the
/// acceleration `accel` later: the velocity advanced by the acceleration,
/// and the position advanced by the new velocity.
pub open spec fn integrates_to<A: Fn(AbiDVec2, AbiDVec2, Scalar) -> AbiDVec2>(
    advance: &A,
    from: VelPos,
    accel: AbiDVec2,
    dt: Scalar,
    to: VelPos,
) -> bool {
    advance.ensures((from.vel, accel, dt), to.vel) && advance.ensures(
        (from.pos, to.vel, dt),
        to.pos,
    )
}

/// `to` is one unpowered step of duration `dt` after `from`.
pub open spec fn coasts_to<
    G: Fn(&Planet, AbiDVec2) -> AbiDVec2,
    C: Fn(AbiDVec2, AbiDVec2) -> AbiDVec2,
    A: Fn(AbiDVec2, AbiDVec2, Scalar) -> AbiDVec2,
>(
    gravity: &G,
    combine: &C,
    advance: &A,
    planets: Seq<Planet>,
    dt: Scalar,
    from: VelPos,
    to: VelPos,
) -> bool {
    exists|accel: AbiDVec2|
        pulled(gravity, combine, planets, from.pos, AbiDVec2::zero(), accel)
            && #[trigger] integrates_to(advance, from, accel, dt, to)
}

/// The sample that `samples[i]` follows: the one before it, and `origin`
/// for the first.
pub open spec fn predecessor(origin: VelPos, samples: Seq<VelPos>, i: int) -> VelPos {
    if i == 0 {
        origin
    } else {
        samples[i - 1]
    }
}

/// From index `start` on, each of `samples` is one unpowered step after its
/// predecessor.
pub open spec fn chained<
    G: Fn(&Planet, AbiDVec2) -> AbiDVec2,
    C: Fn(AbiDVec2, AbiDVec2) -> AbiDVec2,
    A: Fn(AbiDVec2, AbiDVec2, Scalar) -> AbiDVec2,
>(
    gravity: &G,
    combine: &C,
    advance: &A,
    planets: Seq<Planet>,
    dt: Scalar,
    origin: VelPos,
    samples: Seq<VelPos>,
    start: int,
) -> bool {
    forall|i: int|
        start <= i < samples.len() ==> coasts_to(
            gravity,
            combine,
            advance,
            planets,
            dt,
            predecessor(origin, samples, i),
            #[trigger] samples[i],
        )
}

/// `samples` is an unpowered flight that starts from `origin`.
pub open spec fn is_forecast<
    G: Fn(&Planet, AbiDVec2) -> AbiDVec2,
    C: Fn(AbiDVec2, AbiDVec2) -> AbiDVec2,
    A: Fn(AbiDVec2, AbiDVec2, Scalar) -> AbiDVec2,
>(
    gravity: &G,
    combine: &C,
    advance: &A,
    planets: Seq<Planet>,
    dt: Scalar,
    origin: VelPos,
    samples: Seq<VelPos>,
) -> bool {
    chained(gravity, combine, advance, planets, dt, origin, samples, 0)
}

/// The length that lengthening `have` samples to `len` gives: nothing is
/// ever taken away.
pub open spec fn lengthened_len(have: nat, len: nat) -> nat {
    if have >= len {
        have
    } else {
        len
    }
}

/// `after` is `before` lengthened to `len` samples: it begins with
/// `before`, and every sample behind that is one unpowered step after its
/// predecessor. With `len` samples or more in `before`, the two are equal.
pub open spec fn lengthened<
    G: Fn(&Planet, AbiDVec2) -> AbiDVec2,
    C: Fn(AbiDVec2, AbiDVec2) -> AbiDVec2,
    A: Fn(AbiDVec2, AbiDVec2, Scalar) -> AbiDVec2,
>(
    gravity: &G,
    combine: &C,
    advance: &A,
    planets: Seq<Planet>,
    dt: Scalar,
    origin: VelPos,
    before: Seq<VelPos>,
    after: Seq<VelPos>,
    len: nat,
) -> bool {
    &&& after.len() == lengthened_len(before.len(), len)
    &&& after.take(before.len() as int) == before
    &&& chained(gravity, combine, advance, planets, dt, origin, after, before.len() as int)
}

/// Over no planets the sum is what it started from.
pub proof fn lemma_pulled_none<
    G: Fn(&Planet, AbiDVec2) -> AbiDVec2,
    C: Fn(AbiDVec2, AbiDVec2) -> AbiDVec2,
>(gravity: &G, combine: &C, planets: Seq<Planet>, at: AbiDVec2, init: AbiDVec2, sum: AbiDVec2)
    requires
        planets.len() == 0,
    ensures
        pulled(gravity, combine, planets, at, init, sum) <==> sum == init,
{
}

/// The sum is taken in the order of the planets: over some planets it is
/// the acceleration of the last planet on top of the sum over those before
/// it.
pub proof fn lemma_pulled_last<
    G: Fn(&Planet, AbiDVec2) -> AbiDVec2,
    C: Fn(AbiDVec2, AbiDVec2) -> AbiDVec2,
>(gravity: &G, combine: &C, planets: Seq<Planet>, at: AbiDVec2, init: AbiDVec2, sum: AbiDVec2)
    requires
        planets.len() > 0,
    ensures
        pulled(gravity, combine, planets, at, init, sum) <==> exists|before: AbiDVec2|
            pulled(gravity, combine, planets.drop_last(), at, init, before) && #[trigger] pulls_on(
                gravity,
                combine,
                before,
                &planets.last(),
                at,
                sum,
            ),
{
}

/// Adds the accelerations that `planets` give at the point `at` onto
/// `init`, one planet after the other in their order.
pub fn sum_pulls<G: Fn(&Planet, AbiDVec2) -> AbiDVec2, C: Fn(AbiDVec2, AbiDVec2) -> AbiDVec2>(
    planets: &[Planet],
    at: AbiDVec2,
    init: AbiDVec2,
    gravity: &G,
    combine: &C,
) -> (sum: AbiDVec2)
    requires
        gravity_total(gravity),
        combine_total(combine),
    ensures
        pulled(gravity, combine, planets@, at, init, sum),
{
    let mut sum: AbiDVec2 = init;
    let mut i: usize = 0;
    while i < planets.len()
        invariant
            i <= planets.len(),
            gravity_total(gravity),
            combine_total(combine),
            pulled(gravity, combine, planets@.take(i as int), at, init, sum),
        decreases planets.len() - i,
    {
        let accel: AbiDVec2 = planets[i].gravity_accel_on(at, gravity);
        let next: AbiDVec2 = combine(sum, accel);
        proof {
            let upto = planets@.take(i + 1);
            assert(upto.drop_last() == planets@.take(i as int));
            assert(upto.last() == planets@[i as int]);
            assert(pulls_on(gravity, combine, sum, &planets@[i as int], at, next));
        }
        sum = next;
        i += 1;
    }
    proof {
        assert(planets@.take(planets.len() as int) == planets@);
    }
    sum
}

/// One integration step of duration `dt` under the acceleration `accel`:
/// the velocity first, and the position from the new velocity.
pub fn integrate<A: Fn(AbiDVec2, AbiDVec2, Scalar) -> AbiDVec2>(
    from: VelPos,
    accel: AbiDVec2,
    dt: Scalar,
    advance: &A,
) -> (to: VelPos)
    requires
        advance_total(advance),
    ensures
        integrates_to(advance, from, accel, dt, to),
{
    let vel: AbiDVec2 = advance(from.vel, accel, dt);
    let pos: AbiDVec2 = advance(from.pos, vel, dt);
    VelPos { vel, pos }
}

/// One unpowered step of duration `dt` after `from`.
pub fn coast<
    G: Fn(&Planet, AbiDVec2) -> AbiDVec2,
    C: Fn(AbiDVec2, AbiDVec2) -> AbiDVec2,
    A: Fn(AbiDVec2, AbiDVec2, Scalar) -> AbiDVec2,
>(planets: &[Planet], dt: Scalar, from: VelPos, gravity: &G, combine: &C, advance: &A) -> (to:
    VelPos)
    requires
        flight_total(gravity, combine, advance),
    ensures
        coasts_to(gravity, combine, advance, planets@, dt, from, to),
{
    let accel: AbiDVec2 = sum_pulls(planets, from.pos, AbiDVec2::zero(), gravity, combine);
    integrate(from, accel, dt, advance)
}

} // verus!
