//! A cycle-driven sensor, filter, controller and actuator pipeline for a
//! two-joint arm catching a falling object.
//!
//! Every physical reading (positions, speeds, masses, sizes) is a fixed-point
//! number held in an `i64` and counted in thousandths of its unit; timestamps
//! are microseconds since the Unix epoch.
pub mod actuator;
pub mod anomaly;
pub mod controller;
pub mod data_structure;
pub mod feedback;
pub mod filter;
pub mod scheduler;

use vstd::prelude::*;

verus! {

/// Microseconds since the Unix epoch on the system clock.
pub fn now_micros() -> u128 {
    data_structure::now_micros()
}

} // verus!
