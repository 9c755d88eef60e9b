//! What holds of the simulation as a whole.
//!
//! Each law is proved from the relations that the contracts of the
//! simulation are stated in, for every kernel.

use vstd::prelude::*;
use crate::config::Config;
use crate::craft::{burns_to, Craft, CraftView};
use crate::forecast::{
    coasts_to, integrates_to, is_forecast, lemma_pulled_none, lengthened, lengthened_len,
    predecessor, pulled, pulls_on,
};
use crate::kernel::{combine_deterministic, flight_deterministic, gravity_deterministic};
use crate::planet::{attracts, Planet};
use crate::scalar::{lemma_floor_keeps_strict_decrease, Scalar};
use crate::simulation::{coasted, powered, rebuilt, ticked};
use crate::vector::{AbiDVec2, VelPos};

verus! {

/// Kernels that admit one result for each input give one sum of
/// accelerations over any planets.
pub proof fn lemma_pulled_determined<
    G: Fn(&Planet, AbiDVec2) -> AbiDVec2,
    C: Fn(AbiDVec2, AbiDVec2) -> AbiDVec2,
>(
    gravity: &G,
    combine: &C,
    planets: Seq<Planet>,
    at: AbiDVec2,
    init: AbiDVec2,
    a: AbiDVec2,
    b: AbiDVec2,
)
    requires
        gravity_deterministic(gravity),
        combine_deterministic(combine),
        pulled(gravity, combine, planets, at, init, a),
        pulled(gravity, combine, planets, at, init, b),
    ensures
        a == b,
    decreases planets.len(),
{
    if planets.len() > 0 {
        let rest = planets.drop_last();
        let last = planets.last();
        let before_a = choose|m: AbiDVec2|
            pulled(gravity, combine, rest, at, init, m) && #[trigger] pulls_on(
                gravity,
                combine,
                m,
                &last,
                at,
                a,
            );
        let before_b = choose|m: AbiDVec2|
            pulled(gravity, combine, rest, at, init, m) && #[trigger] pulls_on(
                gravity,
                combine,
                m,
                &last,
                at,
                b,
            );
        lemma_pulled_determined(gravity, combine, rest, at, init, before_a, before_b);
        let accel_a = choose|accel: AbiDVec2|
            attracts(gravity, &last, at, accel) && #[trigger] combine.ensures(
                (before_a, accel),
                a,
            );
        let accel_b = choose|accel: AbiDVec2|
            attracts(gravity, &last, at, accel) && #[trigger] combine.ensures(
                (before_b, accel),
                b,
            );
        assert(accel_a == accel_b);
    }
}

/// Kernels that admit one result for each input give one unpowered step
/// after any sample.
pub proof fn lemma_coast_determined<
    G: Fn(&Planet, AbiDVec2) -> AbiDVec2,
    C: Fn(AbiDVec2, AbiDVec2) -> AbiDVec2,
    A: Fn(AbiDVec2, AbiDVec2, Scalar) -> AbiDVec2,
>(
    gravity: &G,
    combine: &C,
    advance: &A,
    planets: Seq<Planet>,
    dt: Scalar,
    from: VelPos,
    a: VelPos,
    b: VelPos,
)
    requires
        flight_deterministic(gravity, combine, advance),
        coasts_to(gravity, combine, advance, planets, dt, from, a),
        coasts_to(gravity, combine, advance, planets, dt, from, b),
    ensures
        a == b,
{
    let accel_a = choose|accel: AbiDVec2|
        pulled(gravity, combine, planets, from.pos, AbiDVec2::zero(), accel)
            && #[trigger] integrates_to(advance, from, accel, dt, a);
    let accel_b = choose|accel: AbiDVec2|
        pulled(gravity, combine, planets, from.pos, AbiDVec2::zero(), accel)
            && #[trigger] integrates_to(advance, from, accel, dt, b);
    lemma_pulled_determined(
        gravity,
        combine,
        planets,
        from.pos,
        AbiDVec2::zero(),
        accel_a,
        accel_b,
    );
}

/// Two lengthenings of one forecast agree on their first `upto` samples.
proof fn lemma_lengthenings_agree<
    G: Fn(&Planet, AbiDVec2) -> AbiDVec2,
    C: Fn(AbiDVec2, AbiDVec2) -> AbiDVec2,
    A: Fn(AbiDVec2, AbiDVec2, Scalar) -> AbiDVec2,
>(
    gravity: &G,
    combine: &C,
    advance: &A,
    planets: Seq<Planet>,
    dt: Scalar,
    origin: VelPos,
    before: Seq<VelPos>,
    a: Seq<VelPos>,
    b: Seq<VelPos>,
    len: nat,
    upto: nat,
)
    requires
        flight_deterministic(gravity, combine, advance),
        lengthened(gravity, combine, advance, planets, dt, origin, before, a, len),
        lengthened(gravity, combine, advance, planets, dt, origin, before, b, len),
        upto <= a.len(),
    ensures
        forall|i: int| 0 <= i < upto ==> a[i] == b[i],
    decreases upto,
{
    if upto > 0 {
        let last = upto - 1;
        lemma_lengthenings_agree(
            gravity,
            combine,
            advance,
            planets,
            dt,
            origin,
            before,
            a,
            b,
            len,
            last as nat,
        );
        if last < before.len() {
            assert(a.take(before.len() as int)[last] == b.take(before.len() as int)[last]);
        } else {
            let from = predecessor(origin, a, last);
            assert(from == predecessor(origin, b, last));
            assert(coasts_to(gravity, combine, advance, planets, dt, from, a[last]));
            assert(coasts_to(gravity, combine, advance, planets, dt, from, b[last]));
            lemma_coast_determined(gravity, combine, advance, planets, dt, from, a[last], b[last]);
        }
    }
}

/// Lengthening is determined: with kernels that admit one result for each
/// input, lengthening the same forecast of the same craft to the same
/// length, under the same planets and time step, gives the same samples.
pub proof fn lemma_lengthening_determined<
    G: Fn(&Planet, AbiDVec2) -> AbiDVec2,
    C: Fn(AbiDVec2, AbiDVec2) -> AbiDVec2,
    A: Fn(AbiDVec2, AbiDVec2, Scalar) -> AbiDVec2,
>(
    gravity: &G,
    combine: &C,
    advance: &A,
    planets: Seq<Planet>,
    dt: Scalar,
    origin: VelPos,
    before: Seq<VelPos>,
    a: Seq<VelPos>,
    b: Seq<VelPos>,
    len: nat,
)
    requires
        flight_deterministic(gravity, combine, advance),
        lengthened(gravity, combine, advance, planets, dt, origin, before, a, len),
        lengthened(gravity, combine, advance, planets, dt, origin, before, b, len),
    ensures
        a == b,
{
    lemma_lengthenings_agree(
        gravity,
        combine,
        advance,
        planets,
        dt,
        origin,
        before,
        a,
        b,
        len,
        a.len(),
    );
    assert(a =~= b);
}

/// Lengthening is idempotent: a forecast that was lengthened to `len`
/// samples is left as it is by lengthening it to `len` samples again, or to
/// fewer.
pub proof fn lemma_lengthening_idempotent<
    G: Fn(&Planet, AbiDVec2) -> AbiDVec2,
    C: Fn(AbiDVec2, AbiDVec2) -> AbiDVec2,
    A: Fn(AbiDVec2, AbiDVec2, Scalar) -> AbiDVec2,
>(
    gravity: &G,
    combine: &C,
    advance: &A,
    planets: Seq<Planet>,
    dt: Scalar,
    origin: VelPos,
    before: Seq<VelPos>,
    once: Seq<VelPos>,
    twice: Seq<VelPos>,
    len: nat,
    again: nat,
)
    requires
        lengthened(gravity, combine, advance, planets, dt, origin, before, once, len),
        lengthened(gravity, combine, advance, planets, dt, origin, once, twice, again),
        again <= len,
    ensures
        twice == once,
{
    assert(twice.take(once.len() as int) =~= twice);
}

/// Lengthening an unpowered flight gives an unpowered flight; so a forecast
/// that was made from nothing is one.
pub proof fn lemma_lengthening_keeps_forecast<
    G: Fn(&Planet, AbiDVec2) -> AbiDVec2,
    C: Fn(AbiDVec2, AbiDVec2) -> AbiDVec2,
    A: Fn(AbiDVec2, AbiDVec2, Scalar) -> AbiDVec2,
>(
    gravity: &G,
    combine: &C,
    advance: &A,
    planets: Seq<Planet>,
    dt: Scalar,
    origin: VelPos,
    before: Seq<VelPos>,
    after: Seq<VelPos>,
    len: nat,
)
    requires
        lengthened(gravity, combine, advance, planets, dt, origin, before, after, len),
        is_forecast(gravity, combine, advance, planets, dt, origin, before),
    ensures
        is_forecast(gravity, combine, advance, planets, dt, origin, after),
{
    assert forall|i: int| 0 <= i < after.len() implies coasts_to(
        gravity,
        combine,
        advance,
        planets,
        dt,
        predecessor(origin, after, i),
        #[trigger] after[i],
    ) by {
        if i < before.len() {
            let kept = after.take(before.len() as int);
            assert(kept[i] == after[i]);
            assert(before[i] == after[i]);
            if i > 0 {
                assert(kept[i - 1] == after[i - 1]);
            }
            assert(predecessor(origin, before, i) == predecessor(origin, after, i));
        }
    }
}

/// What a tick does to a coasting craft. Its state becomes the sample that
/// was at the front of its forecast, or one unpowered step after its old
/// state if it had no forecast. The forecast loses that sample and keeps
/// the others in their order, and every sample that is new continues the
/// flight. The number of samples afterwards is the configured depth, or one
/// less than before for a forecast that was longer than the depth and one.
/// Nothing else about the craft changes.
pub proof fn lemma_coasting_takes_front<
    G: Fn(&Planet, AbiDVec2) -> AbiDVec2,
    C: Fn(AbiDVec2, AbiDVec2) -> AbiDVec2,
    A: Fn(AbiDVec2, AbiDVec2, Scalar) -> AbiDVec2,
>(
    gravity: &G,
    combine: &C,
    advance: &A,
    planets: Seq<Planet>,
    cfg: Config,
    before: CraftView,
    after: CraftView,
)
    requires
        coasted(gravity, combine, advance, planets, cfg, before, after),
    ensures
        after == before.with_state(after.state()).with_trajectory(after.trajectory),
        before.trajectory.len() > 0 ==> after.state() == before.trajectory[0],
        before.trajectory.len() == 0 ==> coasts_to(
            gravity,
            combine,
            advance,
            planets,
            cfg.tick_time,
            before.state(),
            after.state(),
        ),
        after.trajectory.len() + 1 == lengthened_len(
            before.trajectory.len(),
            (cfg.prediction_steps + 1) as nat,
        ),
        forall|i: int|
            0 <= i && i + 1 < before.trajectory.len() ==> #[trigger] after.trajectory[i]
                == before.trajectory[i + 1],
        forall|i: int|
            0 <= i < after.trajectory.len() && i + 1 >= before.trajectory.len() ==> coasts_to(
                gravity,
                combine,
                advance,
                planets,
                cfg.tick_time,
                predecessor(after.state(), after.trajectory, i),
                #[trigger] after.trajectory[i],
            ),
{
    let dt = cfg.tick_time;
    let filled = choose|filled: Seq<VelPos>|
        #[trigger] lengthened(
            gravity,
            combine,
            advance,
            planets,
            dt,
            before.state(),
            before.trajectory,
            filled,
            (cfg.prediction_steps + 1) as nat,
        ) && after == before.with_state(filled[0]).with_trajectory(filled.drop_first());
    let kept = filled.take(before.trajectory.len() as int);
    if before.trajectory.len() > 0 {
        assert(kept[0] == filled[0]);
    } else {
        let from = predecessor(before.state(), filled, 0);
        assert(coasts_to(gravity, combine, advance, planets, dt, from, filled[0]));
    }
    assert forall|i: int|
        0 <= i && i + 1 < before.trajectory.len() implies #[trigger] after.trajectory[i]
        == before.trajectory[i + 1] by {
        assert(kept[i + 1] == filled[i + 1]);
    }
    assert forall|i: int|
        0 <= i < after.trajectory.len() && i + 1 >= before.trajectory.len() implies coasts_to(
        gravity,
        combine,
        advance,
        planets,
        dt,
        predecessor(after.state(), after.trajectory, i),
        #[trigger] after.trajectory[i],
    ) by {
        let from = predecessor(before.state(), filled, i + 1);
        assert(coasts_to(gravity, combine, advance, planets, dt, from, filled[i + 1]));
    }
}

/// A coasting craft flies its forecast: where the forecast was an unpowered
/// flight from the state of the craft, a tick moves the craft by one
/// unpowered step, and the forecast afterwards is an unpowered flight from
/// the new state.
pub proof fn lemma_coasting_flies_forecast<
    G: Fn(&Planet, AbiDVec2) -> AbiDVec2,
    C: Fn(AbiDVec2, AbiDVec2) -> AbiDVec2,
    A: Fn(AbiDVec2, AbiDVec2, Scalar) -> AbiDVec2,
>(
    gravity: &G,
    combine: &C,
    advance: &A,
    planets: Seq<Planet>,
    cfg: Config,
    before: CraftView,
    after: CraftView,
)
    requires
        coasted(gravity, combine, advance, planets, cfg, before, after),
        is_forecast(
            gravity,
            combine,
            advance,
            planets,
            cfg.tick_time,
            before.state(),
            before.trajectory,
        ),
    ensures
        coasts_to(
            gravity,
            combine,
            advance,
            planets,
            cfg.tick_time,
            before.state(),
            after.state(),
        ),
        is_forecast(
            gravity,
            combine,
            advance,
            planets,
            cfg.tick_time,
            after.state(),
            after.trajectory,
        ),
{
    let dt = cfg.tick_time;
    let filled = choose|filled: Seq<VelPos>|
        #[trigger] lengthened(
            gravity,
            combine,
            advance,
            planets,
            dt,
            before.state(),
            before.trajectory,
            filled,
            (cfg.prediction_steps + 1) as nat,
        ) && after == before.with_state(filled[0]).with_trajectory(filled.drop_first());
    lemma_lengthening_keeps_forecast(
        gravity,
        combine,
        advance,
        planets,
        dt,
        before.state(),
        before.trajectory,
        filled,
        (cfg.prediction_steps + 1) as nat,
    );
    let first = predecessor(before.state(), filled, 0);
    assert(coasts_to(gravity, combine, advance, planets, dt, first, filled[0]));
    assert forall|i: int| 0 <= i < after.trajectory.len() implies coasts_to(
        gravity,
        combine,
        advance,
        planets,
        dt,
        predecessor(after.state(), after.trajectory, i),
        #[trigger] after.trajectory[i],
    ) by {
        let from = predecessor(before.state(), filled, i + 1);
        assert(coasts_to(gravity, combine, advance, planets, dt, from, filled[i + 1]));
    }
}

/// A forecast that was made anew has the configured number of samples and
/// is an unpowered flight from where the craft is; the craft itself is not
/// moved or changed.
pub proof fn lemma_rebuilt_is_forecast<
    G: Fn(&Planet, AbiDVec2) -> AbiDVec2,
    C: Fn(AbiDVec2, AbiDVec2) -> AbiDVec2,
    A: Fn(AbiDVec2, AbiDVec2, Scalar) -> AbiDVec2,
>(
    gravity: &G,
    combine: &C,
    advance: &A,
    planets: Seq<Planet>,
    cfg: Config,
    before: CraftView,
    after: CraftView,
)
    requires
        rebuilt(gravity, combine, advance, planets, cfg, before, after),
    ensures
        after.trajectory.len() == cfg.prediction_steps,
        after == before.with_trajectory(after.trajectory),
        is_forecast(
            gravity,
            combine,
            advance,
            planets,
            cfg.tick_time,
            after.state(),
            after.trajectory,
        ),
{
}

/// A tick under power throws the forecast away: afterwards the craft has
/// the configured number of samples, and they are an unpowered flight from
/// where the tick took it. Only its state, its fuel and its forecast change,
/// and its fuel is floored at zero.
pub proof fn lemma_powered_rebuilds<
    T: Fn(&Craft) -> AbiDVec2,
    G: Fn(&Planet, AbiDVec2) -> AbiDVec2,
    C: Fn(AbiDVec2, AbiDVec2) -> AbiDVec2,
    A: Fn(AbiDVec2, AbiDVec2, Scalar) -> AbiDVec2,
    B: Fn(&Craft, Scalar) -> Scalar,
>(
    thrust: &T,
    gravity: &G,
    combine: &C,
    advance: &A,
    burn: &B,
    planets: Seq<Planet>,
    cfg: Config,
    before: &Craft,
    after: CraftView,
)
    requires
        powered(thrust, gravity, combine, advance, burn, planets, cfg, before, after),
    ensures
        after.trajectory.len() == cfg.prediction_steps,
        is_forecast(
            gravity,
            combine,
            advance,
            planets,
            cfg.tick_time,
            after.state(),
            after.trajectory,
        ),
        after == before@.with_state(after.state()).with_fuel(after.fuel_mass).with_trajectory(
            after.trajectory,
        ),
        !after.fuel_mass.sign_negative(),
        !after.fuel_mass.is_nan(),
{
}

/// Every tick keeps forecasts in step: a craft whose forecast was an
/// unpowered flight from its state has such a forecast afterwards, and a
/// forecast within the configured depth is of exactly that depth afterwards.
pub proof fn lemma_tick_keeps_forecast<
    T: Fn(&Craft) -> AbiDVec2,
    G: Fn(&Planet, AbiDVec2) -> AbiDVec2,
    C: Fn(AbiDVec2, AbiDVec2) -> AbiDVec2,
    A: Fn(AbiDVec2, AbiDVec2, Scalar) -> AbiDVec2,
    B: Fn(&Craft, Scalar) -> Scalar,
>(
    thrust: &T,
    gravity: &G,
    combine: &C,
    advance: &A,
    burn: &B,
    planets: Seq<Planet>,
    cfg: Config,
    before: &Craft,
    after: CraftView,
)
    requires
        ticked(thrust, gravity, combine, advance, burn, planets, cfg, before, after),
        is_forecast(
            gravity,
            combine,
            advance,
            planets,
            cfg.tick_time,
            before@.state(),
            before@.trajectory,
        ),
    ensures
        is_forecast(
            gravity,
            combine,
            advance,
            planets,
            cfg.tick_time,
            after.state(),
            after.trajectory,
        ),
        before@.trajectory.len() <= cfg.prediction_steps ==> after.trajectory.len()
            == cfg.prediction_steps,
{
    if before.throttle.is_zero() {
        lemma_coasting_flies_forecast(gravity, combine, advance, planets, cfg, before@, after);
        lemma_coasting_takes_front(gravity, combine, advance, planets, cfg, before@, after);
    } else {
        lemma_powered_rebuilds(
            thrust,
            gravity,
            combine,
            advance,
            burn,
            planets,
            cfg,
            before,
            after,
        );
    }
}

/// Burning leaves less fuel than there was: where every amount that the
/// burn kernel can leave of a positive amount of fuel is below it, the fuel
/// after the burn is below it too, and it is not below zero.
pub proof fn lemma_burn_decreases_fuel<B: Fn(&Craft, Scalar) -> Scalar>(
    burn: &B,
    craft: &Craft,
    time: Scalar,
    fuel: Scalar,
)
    requires
        craft.fuel_mass.is_positive(),
        forall|left: Scalar| #[trigger]
            burn.ensures((craft, time), left) ==> left.lt(craft.fuel_mass),
        burns_to(burn, craft, time, fuel),
    ensures
        fuel.lt(craft.fuel_mass),
        Scalar::zero().le(fuel),
{
    let left = choose|left: Scalar|
        #[trigger] burn.ensures((craft, time), left) && fuel == left.floor_at_zero();
    lemma_floor_keeps_strict_decrease(craft.fuel_mass, left);
}

/// Free flight: with no planets, an unpowered step is one integration step
/// under exactly the zero acceleration, and nothing else.
pub proof fn lemma_free_flight<
    G: Fn(&Planet, AbiDVec2) -> AbiDVec2,
    C: Fn(AbiDVec2, AbiDVec2) -> AbiDVec2,
    A: Fn(AbiDVec2, AbiDVec2, Scalar) -> AbiDVec2,
>(
    gravity: &G,
    combine: &C,
    advance: &A,
    planets: Seq<Planet>,
    dt: Scalar,
    from: VelPos,
    to: VelPos,
)
    requires
        planets.len() == 0,
    ensures
        coasts_to(gravity, combine, advance, planets, dt, from, to) <==> integrates_to(
            advance,
            from,
            AbiDVec2::zero(),
            dt,
            to,
        ),
{
    let zero = AbiDVec2::zero();
    lemma_pulled_none(gravity, combine, planets, from.pos, zero, zero);
    if coasts_to(gravity, combine, advance, planets, dt, from, to) {
        let accel = choose|accel: AbiDVec2|
            pulled(gravity, combine, planets, from.pos, zero, accel) && #[trigger] integrates_to(
                advance,
                from,
                accel,
                dt,
                to,
            );
        lemma_pulled_none(gravity, combine, planets, from.pos, zero, accel);
    }
}

/// The first `upto` samples of an unpowered flight without planets have the
/// velocity at the start.
proof fn lemma_free_flight_upto<
    G: Fn(&Planet, AbiDVec2) -> AbiDVec2,
    C: Fn(AbiDVec2, AbiDVec2) -> AbiDVec2,
    A: Fn(AbiDVec2, AbiDVec2, Scalar) -> AbiDVec2,
>(
    gravity: &G,
    combine: &C,
    advance: &A,
    planets: Seq<Planet>,
    dt: Scalar,
    origin: VelPos,
    samples: Seq<VelPos>,
    upto: int,
)
    requires
        planets.len() == 0,
        is_forecast(gravity, combine, advance, planets, dt, origin, samples),
        forall|vel: AbiDVec2| #[trigger]
            advance.ensures((origin.vel, AbiDVec2::zero(), dt), vel) ==> vel == origin.vel,
        0 <= upto <= samples.len(),
    ensures
        forall|i: int|
            0 <= i < upto ==> (#[trigger] samples[i]).vel == origin.vel && advance.ensures(
                (predecessor(origin, samples, i).pos, origin.vel, dt),
                samples[i].pos,
            ),
    decreases upto,
{
    if upto > 0 {
        let last = upto - 1;
        lemma_free_flight_upto(gravity, combine, advance, planets, dt, origin, samples, last);
        let from = predecessor(origin, samples, last);
        assert(from.vel == origin.vel);
        assert(coasts_to(gravity, combine, advance, planets, dt, from, samples[last]));
        lemma_free_flight(gravity, combine, advance, planets, dt, from, samples[last]);
    }
}

/// Free flight is uniform: with no planets, and an advance kernel that
/// leaves the velocity at the start as it is when the rate is the zero
/// vector, every sample of an unpowered flight has that velocity, and every
/// position is the one before it advanced by that velocity.
pub proof fn lemma_free_flight_is_uniform<
    G: Fn(&Planet, AbiDVec2) -> AbiDVec2,
    C: Fn(AbiDVec2, AbiDVec2) -> AbiDVec2,
    A: Fn(AbiDVec2, AbiDVec2, Scalar) -> AbiDVec2,
>(
    gravity: &G,
    combine: &C,
    advance: &A,
    planets: Seq<Planet>,
    dt: Scalar,
    origin: VelPos,
    samples: Seq<VelPos>,
)
    requires
        planets.len() == 0,
        is_forecast(gravity, combine, advance, planets, dt, origin, samples),
        forall|vel: AbiDVec2| #[trigger]
            advance.ensures((origin.vel, AbiDVec2::zero(), dt), vel) ==> vel == origin.vel,
    ensures
        forall|i: int|
            0 <= i < samples.len() ==> (#[trigger] samples[i]).vel == origin.vel
                && advance.ensures(
                (predecessor(origin, samples, i).pos, origin.vel, dt),
                samples[i].pos,
            ),
{
    lemma_free_flight_upto(
        gravity,
        combine,
        advance,
        planets,
        dt,
        origin,
        samples,
        samples.len() as int,
    );
}

} // verus!
