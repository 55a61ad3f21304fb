//! A terminal snowfall animation, verified with Verus.
//!
//! The library holds the simulation core: duration parsing for run
//! parameters, the spawn model, per-tick kinematics and culling, the
//! renderer's draw computation, and the frame-pacing state machine.
//! Positions are fixed-point integers in millionths of a terminal cell
//! and velocities in thousandths of a cell per second, so one tick adds
//! exactly velocity times elapsed milliseconds — exact integer
//! arithmetic, independent of how a wall-clock delta is split across
//! ticks.

pub mod config;
pub mod duration;
pub mod motion;
pub mod render;
pub mod rng;
pub mod spawn;
pub mod particle;
pub mod scheduler;
pub mod sim;
