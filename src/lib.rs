//! Simulation core of a top-down shoot-em-up: enemy and wave state machines,
//! projectile motion and the per-tick combat resolver.
//!
//! Positions are fixed-point: one pixel is `constants::UNIT` sub-pixel units.
//! Durations are in microseconds. Speeds are in pixels per second, so a speed
//! times a duration in microseconds is a distance in sub-pixel units.

pub mod constants;
pub mod geometry;
pub mod rng;
pub mod bullet;
pub mod resources;
pub mod player;
pub mod enermy;
pub mod wave;
pub mod combat;
pub mod game;
