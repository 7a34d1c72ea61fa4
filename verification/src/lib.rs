//! Point masses under mutual Newtonian gravity, advanced in time by explicit
//! Euler steps.
//!
//! Every number of the simulation is an IEEE-754 binary64 value held as its
//! 64-bit encoding, and all arithmetic on them is done in software, so a run
//! gives the same bits on every machine.

pub mod scalar;
pub mod vec2d;
pub mod body;
pub mod gravity;
pub mod nbody;
pub mod simulation;
pub mod state;
