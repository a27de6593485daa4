//! A 2D gas of circular molecules moving at constant velocity inside a
//! bounded rectangular container, reflecting off the walls and off each
//! other.
//!
//! All lengths are integers in milli-units (one thousandth of a length
//! unit), velocities in milli-units per second, and times in
//! milliseconds, so every step of the simulation is exact integer
//! arithmetic.

pub mod boundary;
pub mod collision;
pub mod config;
pub mod motion;
pub mod particle;
pub mod random;
pub mod sim;
pub mod stats;
pub mod timer;
