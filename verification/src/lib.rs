//! Deterministic core of a planar orbital-mechanics simulation.
//!
//! Gravity sources pull on spacecraft; a spacecraft burns fuel to thrust and
//! carries a bounded forecast of its unpowered flight. The crate holds the
//! decisions and the bookkeeping of that simulation and proves them: when an
//! engine cuts off, where fuel is floored, in what order accelerations are
//! summed and a state is integrated, how a forecast is lengthened and
//! drained, and when it is thrown away and rebuilt.
//!
//! Numbers are binary64 values carried by their bit patterns ([`Scalar`]).
//! The arithmetic on them is supplied by the caller as kernels (see
//! [`kernel`]); every contract is stated relative to what those kernels
//! promise, and [`laws`] holds what follows for the simulation as a whole.

pub mod config;
pub mod craft;
pub mod forecast;
pub mod kernel;
pub mod laws;
pub mod planet;
pub mod scalar;
pub mod simulation;
pub mod vector;

pub use config::Config;
pub use craft::{Craft, TrajectoryIter};
pub use planet::Planet;
pub use scalar::Scalar;
pub use simulation::Simulation;
pub use vector::{AbiDVec2, VelPos};
