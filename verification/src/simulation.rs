//! The simulation: planets, spacecraft, and the tick that advances them.

use vstd::prelude::*;
use crate::config::Config;
use crate::craft::{accelerated, burns_to, Craft, CraftView};
use crate::forecast::{integrates_to, lengthened};
use crate::kernel::{burn_total, flight_total, thrust_total};
use crate::planet::Planet;
use crate::scalar::Scalar;
use crate::vector::{AbiDVec2, VelPos};

verus! {

/// `after` is `before` with its forecast thrown away and made anew: the
/// configured number of samples of unpowered flight from where the craft is.
pub open spec fn rebuilt<
    G: Fn(&Planet, AbiDVec2) -> AbiDVec2,
    C: Fn(AbiDVec2, AbiDVec2) -> AbiDVec2,
    A: Fn(AbiDVec2, AbiDVec2, Scalar) -> AbiDVec2,
>(
    gravity: &G,
    combine: &C,
    advance: &A,
    planets: Seq<Planet>,
    cfg: Config,
    before: CraftView,
    after: CraftView,
) -> bool {
    &&& after == before.with_trajectory(after.trajectory)
    &&& lengthened(
        gravity,
        combine,
        advance,
        planets,
        cfg.tick_time,
        before.state(),
        Seq::empty(),
        after.trajectory,
        cfg.prediction_steps as nat,
    )
}

/// `after` is `before` one tick of unpowered flight later: the forecast is
/// lengthened to one sample more than the configured depth, and its front
/// sample is taken out of it and becomes the state of the craft.
pub open spec fn coasted<
    G: Fn(&Planet, AbiDVec2) -> AbiDVec2,
    C: Fn(AbiDVec2, AbiDVec2) -> AbiDVec2,
    A: Fn(AbiDVec2, AbiDVec2, Scalar) -> AbiDVec2,
>(
    gravity: &G,
    combine: &C,
    advance: &A,
    planets: Seq<Planet>,
    cfg: Config,
    before: CraftView,
    after: CraftView,
) -> bool {
    exists|filled: Seq<VelPos>|
        #[trigger] lengthened(
            gravity,
            combine,
            advance,
            planets,
            cfg.tick_time,
            before.state(),
            before.trajectory,
            filled,
            (cfg.prediction_steps + 1) as nat,
        ) && after == before.with_state(filled[0]).with_trajectory(filled.drop_first())
}

/// `to` is where one tick under thrust takes `craft`: one integration step
/// under its whole acceleration.
pub open spec fn propelled<
    T: Fn(&Craft) -> AbiDVec2,
    G: Fn(&Planet, AbiDVec2) -> AbiDVec2,
    C: Fn(AbiDVec2, AbiDVec2) -> AbiDVec2,
    A: Fn(AbiDVec2, AbiDVec2, Scalar) -> AbiDVec2,
>(
    thrust: &T,
    gravity: &G,
    combine: &C,
    advance: &A,
    planets: Seq<Planet>,
    dt: Scalar,
    craft: &Craft,
    to: VelPos,
) -> bool {
    exists|accel: AbiDVec2|
        accelerated(thrust, gravity, combine, planets, craft, accel) && #[trigger] integrates_to(
            advance,
            craft@.state(),
            accel,
            dt,
            to,
        )
}

/// `after` is `before` one tick of powered flight later: the craft is moved
/// under thrust and gravity, burns fuel where it then is, and gets a new
/// forecast of the configured depth from there.
pub open spec fn powered<
    T: Fn(&Craft) -> AbiDVec2,
    G: Fn(&Planet, AbiDVec2) -> AbiDVec2,
    C: Fn(AbiDVec2, AbiDVec2) -> AbiDVec2,
    A: Fn(AbiDVec2, AbiDVec2, Scalar) -> AbiDVec2,
    B: Fn(&Craft, Scalar) -> Scalar,
>(
    thrust: &T,
    gravity: &G,
    combine: &C,
    advance: &A,
    burn: &B,
    planets: Seq<Planet>,
    cfg: Config,
    before: &Craft,
    after: CraftView,
) -> bool {
    exists|moved: Craft|
        {
            &&& #[trigger] propelled(
                thrust,
                gravity,
                combine,
                advance,
                planets,
                cfg.tick_time,
                before,
                moved@.state(),
            )
            &&& moved@ == before@.with_state(moved@.state())
            &&& burns_to(burn, &moved, cfg.tick_time, after.fuel_mass)
            &&& after == moved@.with_fuel(after.fuel_mass).with_trajectory(after.trajectory)
            &&& rebuilt(
                gravity,
                combine,
                advance,
                planets,
                cfg,
                after.with_trajectory(Seq::empty()),
                after,
            )
        }
}

/// `after` is `before` one tick later. A craft whose throttle is zero
/// coasts along its forecast; any other is flown under power.
pub open spec fn ticked<
    T: Fn(&Craft) -> AbiDVec2,
    G: Fn(&Planet, AbiDVec2) -> AbiDVec2,
    C: Fn(AbiDVec2, AbiDVec2) -> AbiDVec2,
    A: Fn(AbiDVec2, AbiDVec2, Scalar) -> AbiDVec2,
    B: Fn(&Craft, Scalar) -> Scalar,
>(
    thrust: &T,
    gravity: &G,
    combine: &C,
    advance: &A,
    burn: &B,
    planets: Seq<Planet>,
    cfg: Config,
    before: &Craft,
    after: CraftView,
) -> bool {
    if before.throttle.is_zero() {
        coasted(gravity, combine, advance, planets, cfg, before@, after)
    } else {
        powered(thrust, gravity, combine, advance, burn, planets, cfg, before, after)
    }
}

/// Planets and spacecraft under one tick configuration.
///
/// Planets pull on spacecraft; spacecraft do not act on each other. Every
/// forecast is kept in step with the planets and the time step: a change to
/// either throws all forecasts away and makes them anew.
#[derive(Debug)]
pub struct Simulation {
    cfg: Config,
    planets: Vec<Planet>,
    crafts: Vec<Craft>,
}

/// A simulation as a value: its configuration, and its planets and
/// spacecraft in the order in which they were added.
pub struct SimulationView {
    pub cfg: Config,
    pub planets: Seq<Planet>,
    pub crafts: Seq<Craft>,
}

impl SimulationView {
    /// No forecast is longer than the configured depth.
    pub open spec fn forecasts_bounded(self) -> bool {
        forall|i: int|
            0 <= i < self.crafts.len() ==> (#[trigger] self.crafts[i])@.trajectory.len()
                <= self.cfg.prediction_steps
    }

    /// Every forecast was made anew from `before`: no craft has moved or
    /// changed, and each has the configured number of samples of unpowered
    /// flight from where it is, under the planets and the time step as they
    /// now are.
    pub open spec fn forecasts_rebuilt<
        G: Fn(&Planet, AbiDVec2) -> AbiDVec2,
        C: Fn(AbiDVec2, AbiDVec2) -> AbiDVec2,
        A: Fn(AbiDVec2, AbiDVec2, Scalar) -> AbiDVec2,
    >(self, gravity: &G, combine: &C, advance: &A, before: Seq<Craft>) -> bool {
        &&& self.crafts.len() == before.len()
        &&& forall|i: int|
            0 <= i < before.len() ==> rebuilt(
                gravity,
                combine,
                advance,
                self.planets,
                self.cfg,
                before[i]@,
                (#[trigger] self.crafts[i])@,
            )
    }
}

impl View for Simulation {
    type V = SimulationView;

    closed spec fn view(&self) -> SimulationView {
        SimulationView { cfg: self.cfg, planets: self.planets@, crafts: self.crafts@ }
    }
}

impl Simulation {
    /// A simulation without planets or spacecraft.
    pub fn new(cfg: Config) -> (sim: Simulation)
        ensures
            sim@.cfg == cfg,
            sim@.planets == Seq::<Planet>::empty(),
            sim@.crafts == Seq::<Craft>::empty(),
            sim@.forecasts_bounded(),
    {
        Simulation { cfg, planets: Vec::new(), crafts: Vec::new() }
    }

    /// The tick configuration.
    pub fn cfg(&self) -> (cfg: Config)
        ensures
            cfg == self@.cfg,
    {
        self.cfg
    }

    /// The planets, in the order in which they were added.
    pub fn planets(&self) -> (planets: &Vec<Planet>)
        ensures
            planets@ == self@.planets,
    {
        &self.planets
    }

    /// The spacecraft, in the order in which they were added.
    pub fn crafts(&self) -> (crafts: &Vec<Craft>)
        ensures
            crafts@ == self@.crafts,
    {
        &self.crafts
    }

    /// The spacecraft at `index`, to set its numbers; none at or behind the
    /// end. No other spacecraft and no planet is touched. The forecast of
    /// the craft is not made anew for what is set.
    pub fn craft_mut(&mut self, index: usize) -> (craft: Option<&mut Craft>)
        ensures
            craft.is_some() <==> index < old(self)@.crafts.len(),
            craft.is_none() ==> final(self)@ == old(self)@,
            craft.is_some() ==> *craft.unwrap() == old(self)@.crafts[index as int],
            craft.is_some() ==> final(self)@.cfg == old(self)@.cfg,
            craft.is_some() ==> final(self)@.planets == old(self)@.planets,
            craft.is_some() ==> final(self)@.crafts == old(self)@.crafts.update(
                index as int,
                *final(craft.unwrap()),
            ),
    {
        if index < self.crafts.len() {
            Some(&mut self.crafts[index])
        } else {
            None
        }
    }

    /// Adds a planet, and makes the forecast of every spacecraft anew under
    /// the planets as they then are.
    pub fn add_planet<
        G: Fn(&Planet, AbiDVec2) -> AbiDVec2,
        C: Fn(AbiDVec2, AbiDVec2) -> AbiDVec2,
        A: Fn(AbiDVec2, AbiDVec2, Scalar) -> AbiDVec2,
    >(&mut self, planet: Planet, gravity: &G, combine: &C, advance: &A)
        requires
            old(self)@.cfg.prediction_steps <= usize::MAX,
            flight_total(gravity, combine, advance),
        ensures
            final(self)@.cfg == old(self)@.cfg,
            final(self)@.planets == old(self)@.planets.push(planet),
            final(self)@.forecasts_rebuilt(gravity, combine, advance, old(self)@.crafts),
            final(self)@.forecasts_bounded(),
    {
        self.planets.push(planet);
        self.recompute_craft_trajectories(gravity, combine, advance)
    }

    /// Adds a spacecraft. No other spacecraft is touched, and the forecast
    /// of the new one is left as it comes.
    pub fn add_craft(&mut self, craft: Craft)
        ensures
            final(self)@ == (SimulationView {
                crafts: old(self)@.crafts.push(craft),
                ..old(self)@
            }),
            old(self)@.forecasts_bounded() && craft@.trajectory.len()
                <= old(self)@.cfg.prediction_steps ==> final(self)@.forecasts_bounded(),
    {
        self.crafts.push(craft);
    }

    /// Advances every spacecraft by the configured time step.
    ///
    /// A craft whose throttle is zero coasts: its forecast is lengthened to
    /// one sample more than the configured depth, and the front sample is
    /// taken out of it and becomes the state of the craft. Any other craft
    /// is flown under power: it is moved by one integration step under the
    /// acceleration of its engine and of all planets, burns fuel, and gets a
    /// new forecast from where it then is. Spacecraft do not act on each
    /// other.
    pub fn tick<
        T: Fn(&Craft) -> AbiDVec2,
        G: Fn(&Planet, AbiDVec2) -> AbiDVec2,
        C: Fn(AbiDVec2, AbiDVec2) -> AbiDVec2,
        A: Fn(AbiDVec2, AbiDVec2, Scalar) -> AbiDVec2,
        B: Fn(&Craft, Scalar) -> Scalar,
    >(&mut self, thrust: &T, gravity: &G, combine: &C, advance: &A, burn: &B)
        requires
            old(self)@.cfg.prediction_steps < usize::MAX,
            thrust_total(thrust),
            flight_total(gravity, combine, advance),
            burn_total(burn),
        ensures
            final(self)@.cfg == old(self)@.cfg,
            final(self)@.planets == old(self)@.planets,
            final(self)@.crafts.len() == old(self)@.crafts.len(),
            forall|i: int|
                0 <= i < old(self)@.crafts.len() ==> ticked(
                    thrust,
                    gravity,
                    combine,
                    advance,
                    burn,
                    old(self)@.planets,
                    old(self)@.cfg,
                    &old(self)@.crafts[i],
                    (#[trigger] final(self)@.crafts[i])@,
                ),
            old(self)@.forecasts_bounded() ==> final(self)@.forecasts_bounded(),
    {
        let n: usize = self.crafts.len();
        let mut i: usize = 0;
        while i < n
            invariant
                i <= n,
                n == self.crafts@.len(),
                n == old(self).crafts@.len(),
                self.cfg == old(self).cfg,
                self.planets@ == old(self).planets@,
                self.cfg.prediction_steps < usize::MAX,
                thrust_total(thrust),
                flight_total(gravity, combine, advance),
                burn_total(burn),
                forall|j: int|
                    0 <= j < i ==> ticked(
                        thrust,
                        gravity,
                        combine,
                        advance,
                        burn,
                        self.planets@,
                        self.cfg,
                        &old(self).crafts@[j],
                        (#[trigger] self.crafts@[j])@,
                    ),
                forall|j: int|
                    0 <= j < i && old(self).crafts@[j]@.trajectory.len()
                        <= self.cfg.prediction_steps ==> (#[trigger] self.crafts@[j])@
                        .trajectory.len() <= self.cfg.prediction_steps,
                forall|j: int| i <= j < n ==> self.crafts@[j] == old(self).crafts@[j],
            decreases n - i,
        {
            let ghost before = self.crafts@[i as int];
            let craft = &mut self.crafts[i];
            if craft.throttle.is_zero() {
                craft.populate_trajectory(
                    self.planets.as_slice(),
                    self.cfg.tick_time,
                    self.cfg.prediction_steps + 1,
                    gravity,
                    combine,
                    advance,
                );
                let ghost filled = craft@.trajectory;
                if let Some(front) = craft.trajectory.pop_front() {
                    craft.speed = front.vel;
                    craft.position = front.pos;
                }
                proof {
                    // The forecast had a sample to give, and gave its first.
                    assert(craft@ == before@.with_state(filled[0]).with_trajectory(
                        filled.drop_first(),
                    ));
                    assert(lengthened(
                        gravity,
                        combine,
                        advance,
                        self.planets@,
                        self.cfg.tick_time,
                        before@.state(),
                        before@.trajectory,
                        filled,
                        (self.cfg.prediction_steps + 1) as nat,
                    ));
                }
            } else {
                let accel: AbiDVec2 = craft.total_acceleration(
                    self.planets.as_slice(),
                    thrust,
                    gravity,
                    combine,
                );
                craft.integrate_step(accel, self.cfg.tick_time, advance);
                let ghost moved = *craft;
                craft.consume_fuel(self.cfg.tick_time, burn);
                craft.trajectory.clear();
                craft.populate_trajectory(
                    self.planets.as_slice(),
                    self.cfg.tick_time,
                    self.cfg.prediction_steps,
                    gravity,
                    combine,
                    advance,
                );
                proof {
                    assert(propelled(
                        thrust,
                        gravity,
                        combine,
                        advance,
                        self.planets@,
                        self.cfg.tick_time,
                        &before,
                        moved@.state(),
                    ));
                    assert(powered(
                        thrust,
                        gravity,
                        combine,
                        advance,
                        burn,
                        self.planets@,
                        self.cfg,
                        &before,
                        craft@,
                    ));
                }
            }
            i += 1;
        }
    }

    /// Sets the time that one tick covers, and makes the forecast of every
    /// spacecraft anew under it.
    pub fn set_tick_time<
        G: Fn(&Planet, AbiDVec2) -> AbiDVec2,
        C: Fn(AbiDVec2, AbiDVec2) -> AbiDVec2,
        A: Fn(AbiDVec2, AbiDVec2, Scalar) -> AbiDVec2,
    >(&mut self, tick_time: Scalar, gravity: &G, combine: &C, advance: &A)
        requires
            old(self)@.cfg.prediction_steps <= usize::MAX,
            flight_total(gravity, combine, advance),
        ensures
            final(self)@.cfg == (Config { tick_time, ..old(self)@.cfg }),
            final(self)@.planets == old(self)@.planets,
            final(self)@.forecasts_rebuilt(gravity, combine, advance, old(self)@.crafts),
            final(self)@.forecasts_bounded(),
    {
        self.cfg.tick_time = tick_time;
        self.recompute_craft_trajectories(gravity, combine, advance)
    }

    /// Throws away the forecast of every spacecraft and makes it anew.
    fn recompute_craft_trajectories<
        G: Fn(&Planet, AbiDVec2) -> AbiDVec2,
        C: Fn(AbiDVec2, AbiDVec2) -> AbiDVec2,
        A: Fn(AbiDVec2, AbiDVec2, Scalar) -> AbiDVec2,
    >(&mut self, gravity: &G, combine: &C, advance: &A)
        requires
            old(self)@.cfg.prediction_steps <= usize::MAX,
            flight_total(gravity, combine, advance),
        ensures
            final(self)@.cfg == old(self)@.cfg,
            final(self)@.planets == old(self)@.planets,
            final(self)@.forecasts_rebuilt(gravity, combine, advance, old(self)@.crafts),
            final(self)@.forecasts_bounded(),
    {
        let n: usize = self.crafts.len();
        let mut i: usize = 0;
        while i < n
            invariant
                i <= n,
                n == self.crafts@.len(),
                n == old(self).crafts@.len(),
                self.cfg == old(self).cfg,
                self.planets@ == old(self).planets@,
                self.cfg.prediction_steps <= usize::MAX,
                flight_total(gravity, combine, advance),
                forall|j: int|
                    0 <= j < i ==> rebuilt(
                        gravity,
                        combine,
                        advance,
                        self.planets@,
                        self.cfg,
                        old(self).crafts@[j]@,
                        (#[trigger] self.crafts@[j])@,
                    ),
                forall|j: int| i <= j < n ==> self.crafts@[j] == old(self).crafts@[j],
            decreases n - i,
        {
            let craft = &mut self.crafts[i];
            craft.trajectory.clear();
            craft.populate_trajectory(
                self.planets.as_slice(),
                self.cfg.tick_time,
                self.cfg.prediction_steps,
                gravity,
                combine,
                advance,
            );
            i += 1;
        }
    }
}

impl Default for Simulation {
    /// A simulation without planets or spacecraft, under the default
    /// configuration.
    fn default() -> (sim: Simulation)
        ensures
            sim@.cfg == (Config { tick_time: Scalar::zero(), prediction_steps: 0 }),
            sim@.planets == Seq::<Planet>::empty(),
            sim@.crafts == Seq::<Craft>::empty(),
    {
        Simulation::new(Config::new(Scalar::zero(), 0))
    }
}

} // verus!
