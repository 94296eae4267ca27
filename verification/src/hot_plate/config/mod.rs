//! The configuration of the plate, taken once when the plate is made.

use crate::hot_plate::config::temperature::PidConfig;
use crate::utils::math::Percentage;
use vstd::prelude::*;

pub mod temperature;

verus! {

/// All that can be configured of a plate.
#[derive(Clone, Copy, Debug)]
pub struct Configuration {
    /// The smallest duty cycle at which the fan turns.
    pub fan_min_duty_cycle_to_move: Percentage,
    /// The configuration of the temperature control.
    pub pid: PidConfig,
}

impl Configuration {
    /// The configuration of the temperature control is sound.
    pub open spec fn wf(&self) -> bool {
        self.pid.wf()
    }

    /// Tells whether the configuration is sound.
    pub fn is_valid(&self) -> (valid: bool)
        ensures
            valid == self.wf(),
    {
        self.pid.is_valid()
    }
}

} // verus!
