//! Rules of a small rolling-ball game, stated and proved.
//!
//! The engine that draws the ball and simulates its motion lives elsewhere.
//! This crate holds what the game itself decides: how held keys turn into a
//! spin command, when a jump fires, and when the level is spawned.
//!
//! Every quantity is an integer. Velocities are fixed-point numbers with
//! [`units::UNITS_PER_ONE`] units to one engine unit, and a frame's length is
//! given in nanoseconds, so that a rate of one engine unit per second adds
//! exactly one unit per nanosecond.

pub mod units;
pub mod keyboard;
pub mod control;
pub mod loading;

pub use crate::control::TargetAngVel;
pub use crate::loading::GameState;
