//! Temperature sensors.

use crate::utils::measurement::temperature::Temperature;
use vstd::prelude::*;

verus! {

/// A sensor that measures the temperature of the plate.
pub trait TemperatureSensor {
    /// Why a temperature could not be read.
    type Error;

    /// Measures the temperature now.
    fn read_temperature(&mut self) -> Result<Temperature, Self::Error>;
}

} // verus!
