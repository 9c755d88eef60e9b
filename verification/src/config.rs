//! Tick configuration.

use vstd::prelude::*;
use crate::scalar::Scalar;

verus! {

/// What one tick means: how much time it covers, and how many samples of
/// unpowered flight each spacecraft keeps ahead of itself.
#[derive(Clone, Copy, Debug, PartialEq, Eq, Structural)]
pub struct Config {
    pub tick_time: Scalar,
    pub prediction_steps: u64,
}

impl Config {
    /// A configuration with the given time step and forecast depth.
    pub fn new(tick_time: Scalar, prediction_steps: u64) -> (cfg: Config)
        ensures
            cfg.tick_time == tick_time,
            cfg.prediction_steps == prediction_steps,
    {
        Config { tick_time, prediction_steps }
    }
}

impl Default for Config {
    /// A zero time step and no forecast.
    fn default() -> (cfg: Config)
        ensures
            cfg.tick_time == Scalar::zero(),
            cfg.prediction_steps == 0,
    {
        Config { tick_time: Scalar::zero(), prediction_steps: 0 }
    }
}

} // verus!
