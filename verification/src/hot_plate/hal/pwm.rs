//! Pulse-width modulated outputs.

use crate::utils::math::Percentage;
use vstd::prelude::*;

verus! {

/// An output pin whose power is set by the duty cycle of a pulse train.
pub trait PwmPin {
    /// Why a duty cycle could not be set.
    type Error;

    /// The duty cycle that the pin runs at.
    fn get_duty_cycle(&self) -> Percentage;

    /// Asks the pin to run at `percentage` from now on.
    fn set_duty_cycle(&mut self, percentage: Percentage) -> Result<(), Self::Error>;
}

} // verus!
