//! Motion sensing on a single digital line.

use vstd::prelude::*;

verus! {

/// A passive motion detector read through one digital input line.
///
/// The sensor keeps no history: it neither debounces nor detects edges, so it
/// reports motion on every sample on which the line is active.
#[derive(Clone, Copy, Debug)]
pub struct MotionSensor {}

impl MotionSensor {
    /// What the sensor reports for a sampled line level.
    pub open spec fn triggered(level: bool) -> bool {
        level
    }

    pub fn new() -> (sensor: MotionSensor) {
        MotionSensor {  }
    }

    /// Reports whether motion is present, given the level sampled from the
    /// sensor line on this tick.
    pub fn poll(&self, level: bool) -> (motion: bool)
        ensures
            motion == Self::triggered(level),
    {
        level
    }
}

} // verus!
