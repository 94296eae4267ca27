//! The configuration of the plate on this board.

use crate::hot_plate::config::temperature::{PidConfig, SafetyConfig, ThermistorConfig};
use crate::hot_plate::config::Configuration;
use crate::hot_plate::temperature::pid::PidGains;
use crate::hot_plate::temperature::safety::{TemperatureChangeConfig, TemperatureRange};
use crate::utils::math::Percentage;
use crate::utils::measurement::temperature::Temperature;
use vstd::prelude::*;

verus! {

/// The configuration of the plate on this board:
///
/// - the fan turns from 20 % on;
/// - the gains are 20, 2 and 50 percent per kelvin;
/// - the thermistor has a beta of 3950 K and 100 kΩ at 25 °C, under a
///   resistor of 4.7 kΩ;
/// - the temperature is allowed from 0 °C to 270 °C;
/// - the setpoint is kept within 2 K, and may be left for 20 s;
/// - rising to the setpoint is judged within 2 K, over 45 samples in 90 s.
pub fn configuration() -> (configuration: Configuration)
    ensures
        configuration.wf(),
        configuration.fan_min_duty_cycle_to_move@ == 20_000_000,
        configuration.pid.pid_gains == (PidGains { p: 20_000, i: 2_000, d: 50_000 }),
        configuration.pid.thermistor == (ThermistorConfig {
            beta: 3_950,
            resistance_at_t0: 100_000,
            other_resistance: 4_700,
        }),
        configuration.pid.safety.allowed_temperature_range.min.millicelsius() == 0,
        configuration.pid.safety.allowed_temperature_range.max.millicelsius() == 270_000,
        configuration.pid.safety.keep_target_temperature_config == (TemperatureChangeConfig {
            period_in_millis: 20_000,
            hysteresis_in_millikelvin: 2_000,
        }),
        configuration.pid.safety.rise_to_target_temperature_config == (TemperatureChangeConfig {
            period_in_millis: 90_000,
            hysteresis_in_millikelvin: 2_000,
        }),
        configuration.pid.safety.rise_to_target_temperature_samples_count == 45,
{
    Configuration {
        fan_min_duty_cycle_to_move: Percentage::clamped(20_000_000),
        pid: PidConfig {
            pid_gains: PidGains { p: 20_000, i: 2_000, d: 50_000 },
            thermistor: ThermistorConfig {
                beta: 3_950,
                resistance_at_t0: 100_000,
                other_resistance: 4_700,
            },
            safety: SafetyConfig {
                allowed_temperature_range: TemperatureRange {
                    min: Temperature::from_celsius(0),
                    max: Temperature::from_celsius(270),
                },
                keep_target_temperature_config: TemperatureChangeConfig {
                    period_in_millis: 20_000,
                    hysteresis_in_millikelvin: 2_000,
                },
                rise_to_target_temperature_config: TemperatureChangeConfig {
                    period_in_millis: 90_000,
                    hysteresis_in_millikelvin: 2_000,
                },
                rise_to_target_temperature_samples_count: 45,
            },
        },
    }
}

} // verus!
