//! Spacecraft: engine, fuel and forecast.

use vstd::prelude::*;
use std::collections::VecDeque;
use crate::forecast::{
    chained, coast, coasts_to, integrate, integrates_to, lengthened, predecessor, pulled,
    sum_pulls,
};
use crate::kernel::{
    advance_total, burn_total, combine_total, flight_total, gravity_total, rocket_total,
    thrust_total,
};
use crate::planet::Planet;
use crate::scalar::Scalar;
use crate::vector::{AbiDVec2, VelPos};

verus! {

/// A spacecraft propelled by a reaction engine.
///
/// `trajectory` is the forecast of its unpowered flight: the sample at the
/// front is the nearest in time.
#[derive(Debug)]
pub struct Craft {
    pub dry_mass: Scalar,
    pub fuel_mass: Scalar,
    pub isp: Scalar,
    pub thrust: Scalar,
    pub position: AbiDVec2,
    pub speed: AbiDVec2,
    pub heading: Scalar,
    pub throttle: Scalar,
    pub trajectory: VecDeque<VelPos>,
}

/// A craft as a value: its numbers, and its forecast as a sequence.
pub struct CraftView {
    pub dry_mass: Scalar,
    pub fuel_mass: Scalar,
    pub isp: Scalar,
    pub thrust: Scalar,
    pub position: AbiDVec2,
    pub speed: AbiDVec2,
    pub heading: Scalar,
    pub throttle: Scalar,
    pub trajectory: Seq<VelPos>,
}

impl CraftView {
    /// The velocity and position of the craft, as one sample.
    pub open spec fn state(self) -> VelPos {
        VelPos { vel: self.speed, pos: self.position }
    }

    /// The craft with another forecast.
    pub open spec fn with_trajectory(self, trajectory: Seq<VelPos>) -> CraftView {
        CraftView { trajectory, ..self }
    }

    /// The craft at another velocity and position.
    pub open spec fn with_state(self, state: VelPos) -> CraftView {
        CraftView { speed: state.vel, position: state.pos, ..self }
    }

    /// The craft with another amount of fuel.
    pub open spec fn with_fuel(self, fuel_mass: Scalar) -> CraftView {
        CraftView { fuel_mass, ..self }
    }
}

impl View for Craft {
    type V = CraftView;

    open spec fn view(&self) -> CraftView {
        CraftView {
            dry_mass: self.dry_mass,
            fuel_mass: self.fuel_mass,
            isp: self.isp,
            thrust: self.thrust,
            position: self.position,
            speed: self.speed,
            heading: self.heading,
            throttle: self.throttle,
            trajectory: self.trajectory@,
        }
    }
}

/// `accel` is the acceleration that the engine gives `craft`: the zero
/// vector once the fuel is gone, whatever the throttle, and else what the
/// thrust kernel makes of the craft.
pub open spec fn thrusts<T: Fn(&Craft) -> AbiDVec2>(
    thrust: &T,
    craft: &Craft,
    accel: AbiDVec2,
) -> bool {
    if craft.fuel_mass.is_zero() {
        accel == AbiDVec2::zero()
    } else {
        thrust.ensures((craft,), accel)
    }
}

/// `accel` is the whole acceleration of `craft`: that of its engine, and on
/// top of it the acceleration that every planet gives at the position of
/// the craft, in the order of the planets.
pub open spec fn accelerated<
    T: Fn(&Craft) -> AbiDVec2,
    G: Fn(&Planet, AbiDVec2) -> AbiDVec2,
    C: Fn(AbiDVec2, AbiDVec2) -> AbiDVec2,
>(
    thrust: &T,
    gravity: &G,
    combine: &C,
    planets: Seq<Planet>,
    craft: &Craft,
    accel: AbiDVec2,
) -> bool {
    exists|own: AbiDVec2|
        thrusts(thrust, craft, own) && #[trigger] pulled(
            gravity,
            combine,
            planets,
            craft.position,
            own,
            accel,
        )
}

/// `fuel` is what a burn of duration `time` leaves in `craft`: what the
/// burn kernel makes of it, floored at zero.
pub open spec fn burns_to<B: Fn(&Craft, Scalar) -> Scalar>(
    burn: &B,
    craft: &Craft,
    time: Scalar,
    fuel: Scalar,
) -> bool {
    exists|left: Scalar|
        #[trigger] burn.ensures((craft, time), left) && fuel == left.floor_at_zero()
}

/// `dv` is the velocity change that the fuel of `craft` is good for: zero
/// without fuel, and else what the rocket kernel makes of the craft.
pub open spec fn affords<R: Fn(&Craft) -> Scalar>(rocket: &R, craft: &Craft, dv: Scalar) -> bool {
    if craft.fuel_mass.is_zero() {
        dv == Scalar::zero()
    } else {
        rocket.ensures((craft,), dv)
    }
}

impl Craft {
    /// The craft that `new` makes.
    pub open spec fn blank() -> CraftView {
        CraftView {
            dry_mass: Scalar::zero(),
            fuel_mass: Scalar::zero(),
            isp: Scalar::zero(),
            thrust: Scalar::zero(),
            position: AbiDVec2::zero(),
            speed: AbiDVec2::zero(),
            heading: Scalar::zero(),
            throttle: Scalar::zero(),
            trajectory: Seq::empty(),
        }
    }

    /// A craft with every number zero and no forecast.
    pub fn new() -> (craft: Craft)
        ensures
            craft@ == Craft::blank(),
    {
        Craft {
            dry_mass: Scalar::zero(),
            fuel_mass: Scalar::zero(),
            isp: Scalar::zero(),
            thrust: Scalar::zero(),
            position: AbiDVec2::zero(),
            speed: AbiDVec2::zero(),
            heading: Scalar::zero(),
            throttle: Scalar::zero(),
            trajectory: VecDeque::new(),
        }
    }

    /// Where the craft is.
    pub fn position(&self) -> (pos: AbiDVec2)
        ensures
            pos == self.position,
    {
        self.position
    }

    /// Puts the craft at `pos`. The forecast is left as it is.
    pub fn set_position(&mut self, pos: AbiDVec2)
        ensures
            final(self)@ == (CraftView { position: pos, ..old(self)@ }),
    {
        self.position = pos;
    }

    /// The velocity of the craft.
    pub fn speed(&self) -> (vel: AbiDVec2)
        ensures
            vel == self.speed,
    {
        self.speed
    }

    /// Gives the craft the velocity `vel`. The forecast is left as it is.
    pub fn set_speed(&mut self, vel: AbiDVec2)
        ensures
            final(self)@ == (CraftView { speed: vel, ..old(self)@ }),
    {
        self.speed = vel;
    }

    /// The velocity change that the fuel of the craft is good for. Without
    /// fuel it is zero.
    pub fn deltav<R: Fn(&Craft) -> Scalar>(&self, rocket: &R) -> (dv: Scalar)
        requires
            rocket_total(rocket),
        ensures
            affords(rocket, self, dv),
    {
        if self.fuel_mass.is_zero() {
            return Scalar::zero();
        }
        rocket(self)
    }

    /// The forecast, for reading.
    pub fn trajectory_iter(&self) -> (iter: TrajectoryIter<'_>)
        ensures
            iter@ == self@.trajectory,
    {
        TrajectoryIter { inner: &self.trajectory }
    }

    /// The acceleration that the engine gives the craft. An engine without
    /// fuel gives none, whatever the throttle.
    pub fn accel_vector<T: Fn(&Craft) -> AbiDVec2>(&self, thrust: &T) -> (accel: AbiDVec2)
        requires
            thrust_total(thrust),
        ensures
            thrusts(thrust, self, accel),
    {
        if self.fuel_mass.is_zero() {
            return AbiDVec2::zero();
        }
        thrust(self)
    }

    /// The whole acceleration of the craft: that of its engine, and on top
    /// of it the acceleration that every planet gives where the craft is,
    /// summed in the order of the planets.
    pub fn total_acceleration<
        T: Fn(&Craft) -> AbiDVec2,
        G: Fn(&Planet, AbiDVec2) -> AbiDVec2,
        C: Fn(AbiDVec2, AbiDVec2) -> AbiDVec2,
    >(&self, planets: &[Planet], thrust: &T, gravity: &G, combine: &C) -> (accel: AbiDVec2)
        requires
            thrust_total(thrust),
            gravity_total(gravity),
            combine_total(combine),
        ensures
            accelerated(thrust, gravity, combine, planets@, self, accel),
    {
        let own: AbiDVec2 = self.accel_vector(thrust);
        sum_pulls(planets, self.position, own, gravity, combine)
    }

    /// Moves the craft by one integration step of duration `dt` under the
    /// acceleration `accel`: the velocity first, and the position from the
    /// new velocity. Only the velocity and the position change.
    pub fn integrate_step<A: Fn(AbiDVec2, AbiDVec2, Scalar) -> AbiDVec2>(
        &mut self,
        accel: AbiDVec2,
        dt: Scalar,
        advance: &A,
    )
        requires
            advance_total(advance),
        ensures
            integrates_to(advance, old(self)@.state(), accel, dt, final(self)@.state()),
            final(self)@ == old(self)@.with_state(final(self)@.state()),
    {
        let from: VelPos = VelPos { vel: self.speed, pos: self.position };
        let to: VelPos = integrate(from, accel, dt, advance);
        self.speed = to.vel;
        self.position = to.pos;
    }

    /// Burns for `time`: the fuel becomes what the burn kernel leaves of it,
    /// floored at zero. Nothing else changes.
    pub fn consume_fuel<B: Fn(&Craft, Scalar) -> Scalar>(&mut self, time: Scalar, burn: &B)
        requires
            burn_total(burn),
        ensures
            burns_to(burn, old(self), time, final(self).fuel_mass),
            final(self)@ == old(self)@.with_fuel(final(self).fuel_mass),
            !final(self).fuel_mass.sign_negative(),
            !final(self).fuel_mass.is_nan(),
    {
        let left: Scalar = burn(self, time);
        self.fuel_mass = left.floor_at_zero();
    }

    /// Lengthens the forecast to `len` samples. New samples continue the
    /// flight from the last sample of the forecast, or from where the craft
    /// is if it has none. A forecast of `len` samples or more is left as it is.
    pub fn populate_trajectory<
        G: Fn(&Planet, AbiDVec2) -> AbiDVec2,
        C: Fn(AbiDVec2, AbiDVec2) -> AbiDVec2,
        A: Fn(AbiDVec2, AbiDVec2, Scalar) -> AbiDVec2,
    >(
        &mut self,
        planets: &[Planet],
        timestep: Scalar,
        len: u64,
        gravity: &G,
        combine: &C,
        advance: &A,
    )
        requires
            len <= usize::MAX,
            flight_total(gravity, combine, advance),
        ensures
            final(self)@ == old(self)@.with_trajectory(final(self)@.trajectory),
            lengthened(
                gravity,
                combine,
                advance,
                planets@,
                timestep,
                old(self)@.state(),
                old(self)@.trajectory,
                final(self)@.trajectory,
                len as nat,
            ),
            old(self)@.trajectory.len() >= len ==> final(self)@ == old(self)@,
    {
        let target: usize = len as usize;
        let origin: VelPos = VelPos { vel: self.speed, pos: self.position };
        let have: usize = self.trajectory.len();
        let mut last: VelPos = if have > 0 {
            self.trajectory[have - 1]
        } else {
            origin
        };
        while self.trajectory.len() < target
            invariant
                flight_total(gravity, combine, advance),
                self@ == old(self)@.with_trajectory(self@.trajectory),
                origin == old(self)@.state(),
                have == old(self)@.trajectory.len(),
                have <= self@.trajectory.len(),
                self@.trajectory.len() <= target || self@.trajectory.len() == have,
                last == predecessor(origin, self@.trajectory, self@.trajectory.len() as int),
                self@.trajectory.take(have as int) == old(self)@.trajectory,
                chained(
                    gravity,
                    combine,
                    advance,
                    planets@,
                    timestep,
                    origin,
                    self@.trajectory,
                    have as int,
                ),
            decreases target - self.trajectory.len(),
        {
            let ghost so_far = self@.trajectory;
            let next: VelPos = coast(planets, timestep, last, gravity, combine, advance);
            self.trajectory.push_back(next);
            last = next;
            proof {
                let now = self@.trajectory;
                assert(now == so_far.push(next));
                assert(now.take(have as int) == so_far.take(have as int));
                assert forall|i: int| have <= i < now.len() implies coasts_to(
                    gravity,
                    combine,
                    advance,
                    planets@,
                    timestep,
                    predecessor(origin, now, i),
                    #[trigger] now[i],
                ) by {
                    if i < so_far.len() {
                        assert(now[i] == so_far[i]);
                        assert(predecessor(origin, now, i) == predecessor(origin, so_far, i));
                    }
                }
            }
        }
        proof {
            if old(self)@.trajectory.len() >= len {
                assert(self@.trajectory.take(have as int) == self@.trajectory);
            }
        }
    }
}

impl Default for Craft {
    /// A craft with every number zero and no forecast.
    fn default() -> (craft: Craft)
        ensures
            craft@ == Craft::blank(),
    {
        Craft::new()
    }
}

/// The forecast of a craft, for reading: its samples from the nearest in
/// time to the farthest.
pub struct TrajectoryIter<'a> {
    inner: &'a VecDeque<VelPos>,
}

impl<'a> View for TrajectoryIter<'a> {
    type V = Seq<VelPos>;

    closed spec fn view(&self) -> Seq<VelPos> {
        self.inner@
    }
}

/// `outcome` is what visiting the positions of `samples` with `f`, from the
/// first on and up to the first failure, gives: success when every visit
/// succeeded, and else the failure of the first visit that failed, with
/// every visit before it a success.
pub open spec fn visited<E, F: Fn(Scalar, Scalar) -> Result<(), E>>(
    f: &F,
    samples: Seq<VelPos>,
    outcome: Result<(), E>,
) -> bool {
    match outcome {
        Ok(_) => forall|i: int|
            0 <= i < samples.len() ==> f.ensures(
                ((#[trigger] samples[i]).pos.x, samples[i].pos.y),
                Ok(()),
            ),
        Err(e) => exists|k: int|
            {
                &&& 0 <= k < samples.len()
                &&& f.ensures(((#[trigger] samples[k]).pos.x, samples[k].pos.y), Err(e))
                &&& forall|i: int|
                    0 <= i < k ==> f.ensures(
                        ((#[trigger] samples[i]).pos.x, samples[i].pos.y),
                        Ok(()),
                    )
            },
    }
}

impl<'a> TrajectoryIter<'a> {
    /// The number of samples.
    pub fn len(&self) -> (n: usize)
        ensures
            n == self@.len(),
    {
        self.inner.len()
    }

    /// The sample at `index`, counted from the nearest in time; none at or
    /// behind the end.
    pub fn get(&self, index: usize) -> (sample: Option<VelPos>)
        ensures
            index < self@.len() ==> sample == Some(self@[index as int]),
            index >= self@.len() ==> sample.is_none(),
    {
        if index < self.inner.len() {
            Some(self.inner[index])
        } else {
            None
        }
    }

    /// Calls `f` with the two coordinates of the position of each sample,
    /// from the nearest in time on. The first failure ends the visit and is
    /// returned.
    pub fn each_position<E, F: Fn(Scalar, Scalar) -> Result<(), E>>(&self, f: &F) -> (outcome:
        Result<(), E>)
        requires
            forall|i: int|
                0 <= i < self@.len() ==> f.requires(((#[trigger] self@[i]).pos.x, self@[i].pos.y)),
        ensures
            visited(f, self@, outcome),
    {
        let n: usize = self.inner.len();
        let mut i: usize = 0;
        while i < n
            invariant
                i <= n,
                n == self@.len(),
                forall|j: int|
                    0 <= j < self@.len() ==> f.requires(
                        ((#[trigger] self@[j]).pos.x, self@[j].pos.y),
                    ),
                forall|j: int|
                    0 <= j < i ==> f.ensures(((#[trigger] self@[j]).pos.x, self@[j].pos.y), Ok(())),
            decreases n - i,
        {
            let sample: VelPos = self.inner[i];
            let answer: Result<(), E> = f(sample.pos.x, sample.pos.y);
            assert(self@[i as int] == sample);
            match answer {
                Ok(unit) => {
                    assert(unit == ());
                },
                Err(e) => {
                    return Err(e);
                },
            }
            i += 1;
        }
        Ok(())
    }
}

} // verus!
