//! A small 2D particle simulation: a spawner that creates a population of
//! particles with random velocities, and a motion updater that bounces them
//! off window edges, smooths velocity changes by interpolation, and
//! periodically redraws random velocities when a repeating timer fires.
//!
//! All quantities are fixed-point integers in thousandths of a unit
//! (one world unit, or one second, is `FX_ONE` = 1000).

pub mod fx;
pub mod laws;
pub mod limits;
pub mod motion;
pub mod rng;
pub mod spawn;
pub mod timer;
pub mod world;
