//! The devices of the plate.

pub mod cartridge_heater;
pub mod fan;
pub mod ili9341;
pub mod thermistor;
