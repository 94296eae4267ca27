//! Thermal control core of a heated plate: temperature and duty-cycle
//! units, the reflow setpoint scheduler, the temperature safety supervisor
//! and the PID loop that drives the cartridge heater.
//!
//! Every quantity is an integer in a fixed unit (millikelvin, millionths of
//! a percent, milliseconds), so that each contract is an exact statement.

pub mod hot_plate;
pub mod stm32f7;
pub mod utils;
