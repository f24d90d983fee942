//! A two-player table-tennis simulation whose per-frame step is verified.
//!
//! Lengths are integers counted in micro-pixels and time in microseconds,
//! so a speed given in pixels per second is, numerically, a speed in
//! micro-pixels per microsecond, and moving by `velocity * dt` is exact.
pub mod geometry;
pub mod physics;
pub mod chance;
pub mod state;
pub mod laws;
