//! The hardware that a plate is made of.

use crate::hot_plate::drivers::thermistor::Thermistor;
use crate::hot_plate::hal::pwm::PwmPin;
use crate::hot_plate::hal::sensor::TemperatureSensor;
use vstd::prelude::*;

verus! {

/// The peripherals of a board, each of which can be taken once.
pub trait Peripherals {
    /// The pin of the fan.
    type FanPin: PwmPin;

    /// The pin of the cartridge heater.
    type HeaterPin: PwmPin;

    /// The sensor that reads the first thermistor.
    type Thermistor1: TemperatureSensor;

    /// Takes the pin of the fan, or `None` if the board has none left.
    fn take_fan_pin(&mut self) -> Option<Self::FanPin>;

    /// Takes the pin of the cartridge heater, or `None` if the board has
    /// none left.
    fn take_heater_pin(&mut self) -> Option<Self::HeaterPin>;

    /// Takes the sensor of the first thermistor, which is to turn its
    /// readings into temperatures by the constants of `thermistor`, or `None`
    /// if the board has none left.
    fn take_thermistor1(&mut self, thermistor: Thermistor) -> Option<Self::Thermistor1>;
}

} // verus!
