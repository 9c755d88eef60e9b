//! Spacecraft: engine cutoff, fuel, and the forecast of unpowered flight.
//!
//! The kernels below are the binary64 arithmetic of the simulation:
//! Newtonian gravity, thrust along the heading, sums and advances of
//! vectors, and fuel by the mass ratio of the rocket equation.

use std::cell::RefCell;

use nalgebra::{Rotation2, Vector2};
use physics::forecast::{coast, integrate, sum_pulls};
use physics::{AbiDVec2, Craft, Planet, Scalar, VelPos};

const G: f64 = 6.67430e-11;
const STANDARD_GRAVITY: f64 = 9.80665;

fn s(x: f64) -> Scalar {
    Scalar::from_bits(x.to_bits())
}

fn f(x: Scalar) -> f64 {
    f64::from_bits(x.to_bits())
}

fn v(x: f64, y: f64) -> AbiDVec2 {
    AbiDVec2 { x: s(x), y: s(y) }
}

fn na(a: AbiDVec2) -> Vector2<f64> {
    Vector2::new(f(a.x), f(a.y))
}

fn abi(a: Vector2<f64>) -> AbiDVec2 {
    v(a.x, a.y)
}

fn sample(vx: f64, vy: f64, px: f64, py: f64) -> VelPos {
    VelPos { vel: v(vx, vy), pos: v(px, py) }
}

fn thrust(craft: &Craft) -> AbiDVec2 {
    let force = f(craft.thrust) * f(craft.throttle);
    let mass = f(craft.dry_mass) + f(craft.fuel_mass);
    abi(Rotation2::new(f(craft.heading)) * Vector2::new(force / mass, 0.0))
}

fn gravity(planet: &Planet, at: AbiDVec2) -> AbiDVec2 {
    let mut dist = na(planet.position) - na(at);
    let accel_mod = f(planet.mass) * G / dist.magnitude().powi(2);
    dist.set_magnitude(accel_mod);
    abi(dist)
}

fn combine(a: AbiDVec2, b: AbiDVec2) -> AbiDVec2 {
    abi(na(a) + na(b))
}

fn advance(base: AbiDVec2, rate: AbiDVec2, dt: Scalar) -> AbiDVec2 {
    abi(na(base) + na(rate) * f(dt))
}

/// The running sum `sum` with the pull of `planet` at `at` on top.
fn pull(sum: AbiDVec2, planet: &Planet, at: AbiDVec2) -> AbiDVec2 {
    combine(sum, gravity(planet, at))
}

/// One step of duration `dt` under `accel`, worked out by hand.
fn step(from: VelPos, accel: AbiDVec2, dt: Scalar) -> VelPos {
    let vel = na(from.vel) + na(accel) * f(dt);
    let pos = na(from.pos) + vel * f(dt);
    VelPos { vel: abi(vel), pos: abi(pos) }
}

fn burn(craft: &Craft, time: Scalar) -> Scalar {
    let force = f(craft.thrust) * f(craft.throttle);
    let mass = f(craft.dry_mass) + f(craft.fuel_mass);
    let exhaust_velocity = f(craft.isp) * STANDARD_GRAVITY;
    let delta_v = force / mass * f(time);
    let new_mass = mass / (delta_v / exhaust_velocity).exp();
    s(new_mass - f(craft.dry_mass))
}

fn rocket(craft: &Craft) -> Scalar {
    let exhaust_velocity = f(craft.isp) * STANDARD_GRAVITY;
    let mass_ratio = (f(craft.dry_mass) + f(craft.fuel_mass)) / f(craft.dry_mass);
    s(exhaust_velocity * mass_ratio.ln())
}

fn deltav(craft: &Craft) -> f64 {
    f(craft.deltav(&rocket))
}

fn rocket_craft() -> Craft {
    let mut craft = Craft::new();
    craft.dry_mass = s(500.0);
    craft.fuel_mass = s(500.0);
    craft.isp = s(200.0);
    craft.thrust = s(2000.0);
    craft.throttle = s(1.0);
    craft
}

fn samples_of(craft: &Craft) -> Vec<VelPos> {
    let iter = craft.trajectory_iter();
    (0..iter.len()).map(|i| iter.get(i).unwrap()).collect()
}

#[test]
fn new_craft_is_blank() {
    let craft = Craft::new();
    let numbers =
        [craft.dry_mass, craft.fuel_mass, craft.isp, craft.thrust, craft.heading, craft.throttle];
    for x in numbers {
        assert_eq!(x.to_bits(), 0);
    }
    assert_eq!(craft.position(), AbiDVec2::zero());
    assert_eq!(craft.speed(), AbiDVec2::zero());
    assert_eq!(craft.trajectory_iter().len(), 0);
    let other = Craft::default();
    assert_eq!(other.position(), AbiDVec2::zero());
    assert_eq!(other.trajectory_iter().len(), 0);
}

#[test]
fn position_and_speed_are_set_and_read_back() {
    let mut craft = Craft::new();
    craft.set_position(v(3.0, -4.0));
    craft.set_speed(v(0.5, 0.25));
    assert_eq!(craft.position(), v(3.0, -4.0));
    assert_eq!(craft.speed(), v(0.5, 0.25));
    assert_eq!(craft.trajectory_iter().len(), 0);
    assert_eq!(craft.fuel_mass.to_bits(), 0);
}

#[test]
fn setters_leave_the_forecast_alone() {
    let mut craft = Craft::new();
    craft.set_speed(v(1.0, 0.0));
    craft.populate_trajectory(&[], s(1.0), 3, &gravity, &combine, &advance);
    let before = samples_of(&craft);
    craft.set_position(v(100.0, 100.0));
    craft.set_speed(v(-1.0, -1.0));
    assert_eq!(samples_of(&craft), before);
}

#[test]
fn engine_without_fuel_gives_no_acceleration() {
    let mut craft = rocket_craft();
    craft.fuel_mass = s(0.0);
    assert_eq!(craft.accel_vector(&thrust), AbiDVec2::zero());
    craft.fuel_mass = s(-0.0);
    assert_eq!(craft.accel_vector(&thrust), AbiDVec2::zero());
}

#[test]
fn engine_without_fuel_never_asks_the_thrust_kernel() {
    let asked = RefCell::new(0u32);
    let counting = |craft: &Craft| {
        *asked.borrow_mut() += 1;
        thrust(craft)
    };
    let mut craft = rocket_craft();
    craft.fuel_mass = s(0.0);
    craft.dry_mass = s(0.0);
    let accel = craft.accel_vector(&counting);
    assert_eq!(accel, AbiDVec2::zero());
    assert_eq!(*asked.borrow(), 0);
    craft.fuel_mass = s(1.0);
    craft.accel_vector(&counting);
    assert_eq!(*asked.borrow(), 1);
}

#[test]
fn thrust_is_force_over_total_mass_along_the_heading() {
    let mut craft = rocket_craft();
    craft.dry_mass = s(400.0);
    craft.fuel_mass = s(100.0);
    craft.throttle = s(0.5);
    // 2000 * 0.5 / (400 + 100) = 2
    assert_eq!(craft.accel_vector(&thrust), v(2.0, 0.0));
    craft.heading = s(std::f64::consts::FRAC_PI_2);
    let up = craft.accel_vector(&thrust);
    assert!(f(up.x).abs() < 1e-15);
    assert!((f(up.y) - 2.0).abs() < 1e-15);
    craft.heading = s(std::f64::consts::PI);
    let back = craft.accel_vector(&thrust);
    assert!((f(back.x) + 2.0).abs() < 1e-15);
    assert!(f(back.y).abs() < 1e-15);
}

#[test]
fn planet_pulls_with_g_mass_over_distance_squared() {
    let planet = Planet::new(s(1e12), s(1.0), v(3.0, 4.0));
    let accel = planet.gravity_accel_on(v(0.0, 0.0), &gravity);
    // G * 1e12 / 25 = 2.66972, along (0.6, 0.8)
    assert!((f(accel.x) - 1.601832).abs() < 1e-12);
    assert!((f(accel.y) - 2.135776).abs() < 1e-12);
    // Twice as far on the other side: a quarter of it, the other way.
    let beyond = planet.gravity_accel_on(v(9.0, 12.0), &gravity);
    assert!((f(beyond.x) + 1.601832 / 4.0).abs() < 1e-12);
    assert!((f(beyond.y) + 2.135776 / 4.0).abs() < 1e-12);
}

#[test]
fn planet_gives_no_acceleration_where_it_sits() {
    let asked = RefCell::new(0u32);
    let counting = |planet: &Planet, at: AbiDVec2| {
        *asked.borrow_mut() += 1;
        gravity(planet, at)
    };
    let planet = Planet::new(s(5.97e24), s(6.4e6), v(3.0, -0.0));
    assert_eq!(planet.gravity_accel_on(v(3.0, -0.0), &counting), AbiDVec2::zero());
    assert_eq!(planet.gravity_accel_on(v(3.0, 0.0), &counting), AbiDVec2::zero());
    assert_eq!(*asked.borrow(), 0);
    let near = planet.gravity_accel_on(v(3.0, 5e-324), &counting);
    assert_eq!(*asked.borrow(), 1);
    assert!(f(near.y) < 0.0);
}

#[test]
fn gravity_is_g_mass_over_distance_squared_towards_the_planet() {
    let planet = Planet::new(s(1e12), s(1.0), v(3.0, 4.0));
    let craft = Craft::new();
    let accel = craft.total_acceleration(&[planet], &thrust, &gravity, &combine);
    // G * 1e12 / 25 = 2.66972, along (0.6, 0.8)
    assert!((f(accel.x) - 1.601832).abs() < 1e-12);
    assert!((f(accel.y) - 2.135776).abs() < 1e-12);
    let norm = (f(accel.x).powi(2) + f(accel.y).powi(2)).sqrt();
    assert!((norm - 6.67430e-11 * 1e12 / 25.0).abs() < 1e-12);
}

#[test]
fn total_acceleration_adds_thrust_and_every_planet_in_order() {
    let near = Planet::new(s(1e12), s(1.0), v(10.0, 0.0));
    let far = Planet::new(s(4e12), s(1.0), v(0.0, -20.0));
    let mut craft = rocket_craft();
    craft.dry_mass = s(400.0);
    craft.fuel_mass = s(100.0);
    craft.throttle = s(0.5);
    let accel = craft.total_acceleration(&[near, far], &thrust, &gravity, &combine);
    let by_hand = pull(pull(thrust(&craft), &near, craft.position()), &far, craft.position());
    assert_eq!(accel, by_hand);
    // 2 from the engine and G * 1e12 / 100 from the near planet along x,
    // G * 4e12 / 400 from the far planet along -y.
    assert!((f(accel.x) - (2.0 + 0.66743)).abs() < 1e-12);
    assert!((f(accel.y) + 0.66743).abs() < 1e-12);
}

#[test]
fn total_acceleration_visits_the_planets_in_their_order() {
    let seen = RefCell::new(Vec::new());
    let recording = |planet: &Planet, at: AbiDVec2| {
        seen.borrow_mut().push((f(planet.mass), at));
        gravity(planet, at)
    };
    let sums = RefCell::new(Vec::new());
    let summing = |a: AbiDVec2, b: AbiDVec2| {
        sums.borrow_mut().push((a, b));
        combine(a, b)
    };
    let planets = [
        Planet::new(s(1.0), s(0.0), v(1.0, 0.0)),
        Planet::new(s(2.0), s(0.0), v(0.0, 1.0)),
        Planet::new(s(3.0), s(0.0), v(-1.0, 0.0)),
    ];
    let mut craft = rocket_craft();
    craft.heading = s(0.0);
    let own = craft.accel_vector(&thrust);
    craft.set_position(v(0.25, 0.5));
    let at = craft.position();
    let accel = craft.total_acceleration(&planets, &thrust, &recording, &summing);
    assert_eq!(*seen.borrow(), vec![(1.0, at), (2.0, at), (3.0, at)]);
    // The engine comes first, and each planet is added onto what was
    // summed before it.
    let first = pull(own, &planets[0], at);
    let second = pull(first, &planets[1], at);
    assert_eq!(
        *sums.borrow(),
        vec![
            (own, gravity(&planets[0], at)),
            (first, gravity(&planets[1], at)),
            (second, gravity(&planets[2], at)),
        ]
    );
    assert_eq!(accel, pull(second, &planets[2], at));
}

#[test]
fn planet_at_the_very_point_exerts_no_pull() {
    let here = Planet::new(s(5.97e24), s(6.4e6), v(7.0, -2.0));
    let mut craft = Craft::new();
    craft.set_position(v(7.0, -2.0));
    let accel = craft.total_acceleration(&[here], &thrust, &gravity, &combine);
    assert_eq!(accel, AbiDVec2::zero());

    let other = Planet::new(s(1e12), s(1.0), v(7.0, 3.0));
    let both = craft.total_acceleration(&[here, other, here], &thrust, &gravity, &combine);
    assert_eq!(both, pull(AbiDVec2::zero(), &other, craft.position()));
    assert!(f(both.x).is_finite() && f(both.y).is_finite());

    craft.set_position(v(7.0, -2.0 + 1e-9));
    let close = craft.total_acceleration(&[here], &thrust, &gravity, &combine);
    assert!(f(close.y) < 0.0);
}

#[test]
fn forecast_through_the_centre_of_a_planet_stays_a_number() {
    let here = Planet::new(s(1e12), s(1.0), v(0.0, 0.0));
    let mut craft = Craft::new();
    craft.set_speed(v(1.0, 0.0));
    craft.populate_trajectory(&[here], s(1.0), 2, &gravity, &combine, &advance);
    let samples = samples_of(&craft);
    // At the centre there is no pull, so the first step is free flight.
    assert_eq!(samples[0], sample(1.0, 0.0, 1.0, 0.0));
    // One unit out, the planet pulls back with G * 1e12.
    let back = 1.0 - 6.67430e-11 * 1e12;
    assert!((f(samples[1].vel.x) - back).abs() < 1e-12);
    assert!(f(samples[1].pos.x).is_finite());
}

#[test]
fn integrate_advances_the_velocity_first() {
    let to = integrate(sample(1.0, -1.0, 10.0, 20.0), v(0.5, 2.0), s(2.0), &advance);
    assert_eq!(to, sample(2.0, 3.0, 14.0, 26.0));
    // With the old velocity the position would have been (12, 18).
    assert_ne!(to.pos, v(12.0, 18.0));
}

#[test]
fn integrate_asks_for_the_velocity_and_then_for_the_position() {
    let asked = RefCell::new(Vec::new());
    let recording = |base: AbiDVec2, rate: AbiDVec2, dt: Scalar| {
        asked.borrow_mut().push((base, rate, f(dt)));
        advance(base, rate, dt)
    };
    let to = integrate(sample(1.0, -1.0, 10.0, 20.0), v(0.5, 2.0), s(2.0), &recording);
    assert_eq!(
        *asked.borrow(),
        vec![(v(1.0, -1.0), v(0.5, 2.0), 2.0), (v(10.0, 20.0), to.vel, 2.0)]
    );
}

#[test]
fn sum_pulls_starts_from_what_it_is_given() {
    let start = v(0.125, -0.5);
    assert_eq!(sum_pulls(&[], v(1.0, 1.0), start, &gravity, &combine), start);
    let planet = Planet::new(s(1e12), s(1.0), v(0.0, 10.0));
    let sum = sum_pulls(&[planet], v(0.0, 0.0), start, &gravity, &combine);
    assert_eq!(f(sum.x), 0.125);
    assert!((f(sum.y) - (-0.5 + 0.66743)).abs() < 1e-12);
}

#[test]
fn coast_is_one_step_under_gravity_alone() {
    let planets = [
        Planet::new(s(1e12), s(1.0), v(0.0, 10.0)),
        Planet::new(s(2e12), s(1.0), v(-20.0, 0.0)),
    ];
    let from = sample(0.5, 0.25, 0.0, 0.0);
    let to = coast(&planets, s(0.5), from, &gravity, &combine, &advance);
    let accel = sum_pulls(&planets, from.pos, AbiDVec2::zero(), &gravity, &combine);
    assert_eq!(to, step(from, accel, s(0.5)));
    // G * 1e12 / 100 up, G * 2e12 / 400 to the left
    assert!((f(to.vel.y) - (0.25 + 0.66743 * 0.5)).abs() < 1e-12);
    assert!((f(to.vel.x) - (0.5 - 0.333715 * 0.5)).abs() < 1e-12);
    assert_eq!(f(to.pos.x), f(to.vel.x) * 0.5);
    assert_eq!(f(to.pos.y), f(to.vel.y) * 0.5);
}

#[test]
fn integration_moves_the_position_by_the_new_velocity() {
    let mut craft = Craft::new();
    craft.set_position(v(10.0, 20.0));
    craft.set_speed(v(1.0, -1.0));
    craft.integrate_step(v(0.5, 2.0), s(2.0), &advance);
    // velocity first: (1 + 0.5 * 2, -1 + 2 * 2); then the position from it
    assert_eq!(craft.speed(), v(2.0, 3.0));
    assert_eq!(craft.position(), v(14.0, 26.0));
}

#[test]
fn integration_changes_only_the_state() {
    let mut craft = rocket_craft();
    craft.populate_trajectory(&[], s(1.0), 2, &gravity, &combine, &advance);
    let forecast = samples_of(&craft);
    craft.integrate_step(v(1.0, 1.0), s(1.0), &advance);
    assert_eq!(f(craft.fuel_mass), 500.0);
    assert_eq!(f(craft.dry_mass), 500.0);
    assert_eq!(f(craft.throttle), 1.0);
    assert_eq!(samples_of(&craft), forecast);
}

#[test]
fn burning_strictly_decreases_fuel() {
    let mut craft = rocket_craft();
    let mut last = f(craft.fuel_mass);
    for _ in 0..50 {
        craft.consume_fuel(s(0.25), &burn);
        let now = f(craft.fuel_mass);
        assert!(now < last);
        assert!(now >= 0.0);
        last = now;
    }
}

#[test]
fn burning_for_one_second_spends_two_of_delta_v() {
    let mut craft = rocket_craft();
    let before = deltav(&craft);
    craft.consume_fuel(s(1.0), &burn);
    let after = deltav(&craft);
    assert!(((before - after) - 2.0).abs() < 1e-4);
    assert!((before - 1359.4903596476374).abs() < 1e-9);
    assert!((f(craft.fuel_mass) - 498.98080352092427).abs() < 1e-9);
}

#[test]
fn delta_v_is_exhaust_velocity_times_the_logarithm_of_the_mass_ratio() {
    let craft = rocket_craft();
    // 200 * 9.80665 * ln(1000 / 500)
    assert!((deltav(&craft) - 1359.4903596476374).abs() < 1e-9);
    assert!((deltav(&craft) - 200.0 * 9.80665 * 2.0f64.ln()).abs() < 1e-9);
}

#[test]
fn delta_v_without_fuel_is_zero() {
    let asked = RefCell::new(0u32);
    let counting = |craft: &Craft| {
        *asked.borrow_mut() += 1;
        rocket(craft)
    };
    let mut craft = rocket_craft();
    craft.fuel_mass = s(0.0);
    assert_eq!(craft.deltav(&counting).to_bits(), 0);
    craft.fuel_mass = s(-0.0);
    craft.dry_mass = s(0.0);
    assert_eq!(craft.deltav(&counting).to_bits(), 0);
    assert_eq!(*asked.borrow(), 0);
    craft.fuel_mass = s(1.0);
    craft.dry_mass = s(1.0);
    assert!(f(craft.deltav(&counting)) > 0.0);
    assert_eq!(*asked.borrow(), 1);
}

#[test]
fn burning_for_half_a_second_leaves_less_than_there_was() {
    let mut craft = rocket_craft();
    craft.consume_fuel(s(0.5), &burn);
    assert!(f(craft.fuel_mass) < 500.0);
    assert!((f(craft.fuel_mass) - 499.4902718490681).abs() < 1e-9);
}

#[test]
fn burning_changes_nothing_but_the_fuel() {
    let mut craft = rocket_craft();
    craft.set_position(v(1.0, 2.0));
    craft.set_speed(v(3.0, 4.0));
    craft.heading = s(0.75);
    craft.populate_trajectory(&[], s(1.0), 2, &gravity, &combine, &advance);
    let forecast = samples_of(&craft);
    craft.consume_fuel(s(1.0), &burn);
    assert_eq!(f(craft.dry_mass), 500.0);
    assert_eq!(f(craft.isp), 200.0);
    assert_eq!(f(craft.thrust), 2000.0);
    assert_eq!(f(craft.throttle), 1.0);
    assert_eq!(f(craft.heading), 0.75);
    assert_eq!(craft.position(), v(1.0, 2.0));
    assert_eq!(craft.speed(), v(3.0, 4.0));
    assert_eq!(samples_of(&craft), forecast);
}

#[test]
fn fuel_is_floored_at_zero() {
    let mut craft = rocket_craft();
    craft.fuel_mass = s(1e-3);
    craft.isp = s(1e-3);
    craft.consume_fuel(s(100.0), &burn);
    assert_eq!(craft.fuel_mass.to_bits(), 0);
    // Out of fuel, the engine is cut off whatever the throttle says.
    assert_eq!(f(craft.throttle), 1.0);
    assert_eq!(craft.accel_vector(&thrust), AbiDVec2::zero());
}

#[test]
fn fuel_that_the_kernel_overdraws_becomes_zero() {
    let overdraw = |craft: &Craft, time: Scalar| s(f(craft.fuel_mass) - 1000.0 * f(time));
    let mut craft = rocket_craft();
    craft.consume_fuel(s(0.25), &overdraw);
    assert_eq!(f(craft.fuel_mass), 250.0);
    craft.consume_fuel(s(0.25), &overdraw);
    assert_eq!(craft.fuel_mass.to_bits(), 0);
    craft.consume_fuel(s(0.25), &overdraw);
    assert_eq!(craft.fuel_mass.to_bits(), 0);
}

#[test]
fn fuel_that_is_no_number_becomes_zero() {
    let lost = |_: &Craft, _: Scalar| s(f64::NAN);
    let mut craft = rocket_craft();
    craft.consume_fuel(s(1.0), &lost);
    assert_eq!(craft.fuel_mass.to_bits(), 0);
}

#[test]
fn forecast_in_free_flight_is_a_straight_line() {
    let mut craft = Craft::new();
    craft.set_position(v(2.0, 3.0));
    craft.set_speed(v(1.5, -0.5));
    craft.populate_trajectory(&[], s(0.25), 4, &gravity, &combine, &advance);
    assert_eq!(
        samples_of(&craft),
        vec![
            sample(1.5, -0.5, 2.375, 2.875),
            sample(1.5, -0.5, 2.75, 2.75),
            sample(1.5, -0.5, 3.125, 2.625),
            sample(1.5, -0.5, 3.5, 2.5),
        ]
    );
    // The craft itself has not moved.
    assert_eq!(craft.position(), v(2.0, 3.0));
    assert_eq!(craft.speed(), v(1.5, -0.5));
}

#[test]
fn forecast_is_unpowered_even_at_full_throttle() {
    let mut craft = rocket_craft();
    craft.set_speed(v(1.0, 0.0));
    craft.populate_trajectory(&[], s(1.0), 3, &gravity, &combine, &advance);
    assert_eq!(
        samples_of(&craft),
        vec![sample(1.0, 0.0, 1.0, 0.0), sample(1.0, 0.0, 2.0, 0.0), sample(1.0, 0.0, 3.0, 0.0)]
    );
    assert_eq!(f(craft.fuel_mass), 500.0);
}

#[test]
fn forecast_falls_towards_a_planet() {
    let planet = Planet::new(s(1e12), s(1.0), v(0.0, -10.0));
    let mut craft = Craft::new();
    craft.set_speed(v(1.0, 0.0));
    craft.populate_trajectory(&[planet], s(1.0), 3, &gravity, &combine, &advance);
    let samples = samples_of(&craft);
    // First step: G * 1e12 / 100 straight down.
    assert!((f(samples[0].vel.y) + 0.66743).abs() < 1e-12);
    assert_eq!(f(samples[0].vel.x), 1.0);
    assert!((f(samples[0].pos.y) + 0.66743).abs() < 1e-12);
    assert_eq!(f(samples[0].pos.x), 1.0);
    // Each sample is one step after the one before it.
    let origin = VelPos { vel: craft.speed(), pos: craft.position() };
    let mut from = origin;
    for got in samples {
        let accel = pull(AbiDVec2::zero(), &planet, from.pos);
        let want = step(from, accel, s(1.0));
        assert_eq!(got, want);
        from = got;
    }
}

#[test]
fn forecast_is_the_same_whenever_it_is_made() {
    let planets = [
        Planet::new(s(5e12), s(1.0), v(30.0, 40.0)),
        Planet::new(s(2e12), s(1.0), v(-15.0, 5.0)),
    ];
    let make = || {
        let mut craft = rocket_craft();
        craft.set_position(v(1.0, 2.0));
        craft.set_speed(v(0.3, -0.7));
        craft
    };
    let mut first = make();
    let mut second = make();
    first.populate_trajectory(&planets, s(0.5), 25, &gravity, &combine, &advance);
    second.populate_trajectory(&planets, s(0.5), 25, &gravity, &combine, &advance);
    assert_eq!(samples_of(&first).len(), 25);
    assert_eq!(samples_of(&first), samples_of(&second));
}

#[test]
fn forecast_of_enough_samples_is_left_as_it_is() {
    let planets = [Planet::new(s(5e12), s(1.0), v(30.0, 40.0))];
    let mut craft = rocket_craft();
    craft.set_speed(v(0.3, -0.7));
    craft.populate_trajectory(&planets, s(0.5), 8, &gravity, &combine, &advance);
    let once = samples_of(&craft);
    assert_eq!(once.len(), 8);
    craft.populate_trajectory(&planets, s(0.5), 8, &gravity, &combine, &advance);
    assert_eq!(samples_of(&craft), once);
    craft.populate_trajectory(&planets, s(0.5), 3, &gravity, &combine, &advance);
    assert_eq!(samples_of(&craft), once);
    craft.populate_trajectory(&planets, s(0.5), 0, &gravity, &combine, &advance);
    assert_eq!(samples_of(&craft), once);
}

#[test]
fn forecast_of_enough_samples_asks_no_kernel() {
    let asked = RefCell::new(0u32);
    let counting = |base: AbiDVec2, rate: AbiDVec2, dt: Scalar| {
        *asked.borrow_mut() += 1;
        advance(base, rate, dt)
    };
    let mut craft = Craft::new();
    // Each sample takes two advances: the velocity, then the position.
    craft.populate_trajectory(&[], s(1.0), 5, &gravity, &combine, &counting);
    assert_eq!(*asked.borrow(), 10);
    craft.populate_trajectory(&[], s(1.0), 5, &gravity, &combine, &counting);
    craft.populate_trajectory(&[], s(1.0), 2, &gravity, &combine, &counting);
    assert_eq!(*asked.borrow(), 10);
    craft.populate_trajectory(&[], s(1.0), 6, &gravity, &combine, &counting);
    assert_eq!(*asked.borrow(), 12);
}

#[test]
fn forecast_is_continued_from_its_last_sample() {
    let planets = [Planet::new(s(5e12), s(1.0), v(30.0, 40.0))];
    let mut at_once = rocket_craft();
    at_once.set_speed(v(0.3, -0.7));
    at_once.populate_trajectory(&planets, s(0.5), 10, &gravity, &combine, &advance);

    let mut in_parts = rocket_craft();
    in_parts.set_speed(v(0.3, -0.7));
    in_parts.populate_trajectory(&planets, s(0.5), 4, &gravity, &combine, &advance);
    let head = samples_of(&in_parts);
    in_parts.populate_trajectory(&planets, s(0.5), 10, &gravity, &combine, &advance);
    let whole = samples_of(&in_parts);
    assert_eq!(whole.len(), 10);
    assert_eq!(&whole[..4], &head[..]);
    assert_eq!(whole, samples_of(&at_once));
}

#[test]
fn forecast_of_no_samples_is_empty() {
    let mut craft = rocket_craft();
    craft.populate_trajectory(&[], s(1.0), 0, &gravity, &combine, &advance);
    assert_eq!(craft.trajectory_iter().len(), 0);
    assert_eq!(craft.trajectory_iter().get(0), None);
}

#[test]
fn trajectory_is_read_by_index_from_the_nearest_sample() {
    let mut craft = Craft::new();
    craft.set_speed(v(1.0, 0.0));
    craft.populate_trajectory(&[], s(1.0), 3, &gravity, &combine, &advance);
    let iter = craft.trajectory_iter();
    assert_eq!(iter.len(), 3);
    assert_eq!(iter.get(0), Some(sample(1.0, 0.0, 1.0, 0.0)));
    assert_eq!(iter.get(2), Some(sample(1.0, 0.0, 3.0, 0.0)));
    assert_eq!(iter.get(3), None);
    assert_eq!(iter.get(usize::MAX), None);
    // Reading does not use the forecast up.
    assert_eq!(craft.trajectory_iter().len(), 3);
}

#[test]
fn each_position_visits_every_sample_in_order() {
    let mut craft = Craft::new();
    craft.set_position(v(0.0, 10.0));
    craft.set_speed(v(1.0, -2.0));
    craft.populate_trajectory(&[], s(1.0), 3, &gravity, &combine, &advance);
    let seen = RefCell::new(Vec::new());
    let outcome: Result<(), String> = craft.trajectory_iter().each_position(&|x, y| {
        seen.borrow_mut().push((f(x), f(y)));
        Ok(())
    });
    assert_eq!(outcome, Ok(()));
    assert_eq!(*seen.borrow(), vec![(1.0, 8.0), (2.0, 6.0), (3.0, 4.0)]);
}

#[test]
fn each_position_stops_at_the_first_failure() {
    let mut craft = Craft::new();
    craft.set_speed(v(1.0, 0.0));
    craft.populate_trajectory(&[], s(1.0), 5, &gravity, &combine, &advance);
    let seen = RefCell::new(Vec::new());
    let outcome = craft.trajectory_iter().each_position(&|x, _| {
        seen.borrow_mut().push(f(x));
        if f(x) >= 2.0 {
            Err(format!("stopped at {}", f(x)))
        } else {
            Ok(())
        }
    });
    assert_eq!(outcome, Err(String::from("stopped at 2")));
    assert_eq!(*seen.borrow(), vec![1.0, 2.0]);
}

#[test]
fn each_position_of_an_empty_forecast_succeeds() {
    let craft = Craft::new();
    let outcome: Result<(), u8> = craft.trajectory_iter().each_position(&|_, _| Err(1));
    assert_eq!(outcome, Ok(()));
}
