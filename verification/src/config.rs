//! Settings a robot is started with.

use vstd::prelude::*;

verus! {

/// Settings handed over when the robot is brought up.
#[derive(Debug, Clone, PartialEq, Eq)]
pub struct Config {
    /// Where telemetry is posted.
    pub server_url: String,
    /// Milliseconds between two polls of the inertial unit.
    pub imu_poll_interval_ms: u64,
}

} // verus!
