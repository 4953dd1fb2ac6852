//! Verified core of a fixed-timestep ball-and-paddle arcade game.
//!
//! All geometry runs on integer coordinates measured in sub-units: 60
//! sub-units to one logical unit, so that one tick (1/60 s) of travel at a
//! speed of `v` logical units per second advances a position by exactly `v`
//! sub-units.  The per-tick simulation (paddle motion, ball launch,
//! integration, collision detection and response, scoring and life loss) is
//! specified by ghost step functions over a mathematical world model and the
//! executable code is proved to follow them exactly.

pub mod geom;
pub mod state;
pub mod input;
pub mod sim;
pub mod laws;
