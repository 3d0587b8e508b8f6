//! A verified discrete-time closed-loop control simulation: a PID feedback
//! controller drives an idealized triple-integrator plant toward a target
//! value, and a driver state machine decides each tick whether the run keeps
//! going, has converged, has diverged, or has exhausted its iteration budget.
//!
//! All quantities are fixed-point numbers: an `i64` value `v` stands for the
//! real number `v / SCALE`. Every executable operation is specified exactly
//! against a mathematical model over unbounded integers.

pub mod controller;
pub mod fixed;
pub mod plant;
pub mod sim;
