//! A single four-way signalised intersection, simulated in fixed time steps.
//!
//! Vehicles enter from one of four approaches, follow a fixed lane, turn at
//! most once, keep a following distance and hold at a red signal. A signal
//! controller gives exactly one approach the right of way, cycling in a fixed
//! order and switching early to the most congested approach.
//!
//! Positions are whole pixels and time is counted in whole milliseconds.

pub mod geometry;
pub mod traffic_light;
pub mod random;
pub mod car;
pub mod utils;
pub mod controller;
pub mod simulation;
