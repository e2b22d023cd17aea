//! A handle on the CPU telemetry of the daemon, made once when the daemon
//! starts and handed to whatever reports it.

use vstd::prelude::*;

verus! {

/// The handle on the daemon's CPU telemetry; it holds no state.
pub struct CpuTracker {}

impl CpuTracker {
    pub fn new() -> (r: CpuTracker) {
        CpuTracker {}
    }
}

} // verus!
