//! The configuration of the temperature control.

use crate::hot_plate::temperature::pid::PidGains;
use crate::hot_plate::temperature::safety::{
    valid_configuration, TemperatureChangeConfig, TemperatureRange,
};
use vstd::prelude::*;

verus! {

/// The configuration of the PID loop and of what it works with.
#[derive(Clone, Copy, Debug)]
pub struct PidConfig {
    pub pid_gains: PidGains,
    pub thermistor: ThermistorConfig,
    pub safety: SafetyConfig,
}

/// The constants of the thermistor and of its voltage divider.
#[derive(Clone, Copy, Debug, PartialEq, Eq, Structural, Hash)]
pub struct ThermistorConfig {
    /// The beta coefficient of the thermistor, in kelvin.
    pub beta: u32,
    /// The resistance of the thermistor at 25 °C, in ohms.
    pub resistance_at_t0: u32,
    /// The resistance of the fixed resistor of the divider, in ohms.
    pub other_resistance: u32,
}

/// The configuration of the safety supervisor.
#[derive(Clone, Copy, Debug)]
pub struct SafetyConfig {
    /// The range that the temperature is allowed in, both ends included.
    pub allowed_temperature_range: TemperatureRange,
    /// The period and the hysteresis of keeping the setpoint.
    pub keep_target_temperature_config: TemperatureChangeConfig,
    /// The period and the hysteresis of rising to the setpoint.
    pub rise_to_target_temperature_config: TemperatureChangeConfig,
    /// The number of samples in a window of the rise policy.
    pub rise_to_target_temperature_samples_count: usize,
}

impl ThermistorConfig {
    /// The three constants are positive.
    pub open spec fn wf(&self) -> bool {
        self.beta > 0 && self.resistance_at_t0 > 0 && self.other_resistance > 0
    }

    /// Tells whether the three constants are positive.
    pub fn is_valid(&self) -> (valid: bool)
        ensures
            valid == self.wf(),
    {
        self.beta > 0 && self.resistance_at_t0 > 0 && self.other_resistance > 0
    }
}

impl SafetyConfig {
    /// The allowed range holds a temperature at least, both periods are
    /// longer than nothing, and a window holds a sample at least.
    pub open spec fn wf(&self) -> bool {
        valid_configuration(
            self.allowed_temperature_range,
            self.keep_target_temperature_config,
            self.rise_to_target_temperature_config,
            self.rise_to_target_temperature_samples_count as int,
        )
    }

    /// Tells whether the configuration is sound.
    pub fn is_valid(&self) -> (valid: bool)
        ensures
            valid == self.wf(),
    {
        self.allowed_temperature_range.min.as_millikelvin()
            <= self.allowed_temperature_range.max.as_millikelvin()
            && self.keep_target_temperature_config.period_in_millis > 0
            && self.rise_to_target_temperature_config.period_in_millis > 0
            && self.rise_to_target_temperature_samples_count > 0
    }
}

impl PidConfig {
    /// The thermistor and the safety supervisor are configured soundly.
    pub open spec fn wf(&self) -> bool {
        self.thermistor.wf() && self.safety.wf()
    }

    /// Tells whether the configuration is sound.
    pub fn is_valid(&self) -> (valid: bool)
        ensures
            valid == self.wf(),
    {
        self.thermistor.is_valid() && self.safety.is_valid()
    }
}

} // verus!
