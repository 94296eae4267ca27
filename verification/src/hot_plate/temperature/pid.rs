//! The PID loop that holds the plate at its setpoint.

use crate::hot_plate::drivers::cartridge_heater::CartridgeHeater;
use crate::hot_plate::hal::pwm::PwmPin;
use crate::hot_plate::hal::sensor::TemperatureSensor;
use crate::hot_plate::temperature::safety::{
    step, violations, TemperatureError, TemperatureErrorSet, TemperatureSafety,
};
use crate::utils::math::{clamp, Percentage};
use crate::utils::measurement::temperature::Temperature;
use vstd::prelude::*;

verus! {

/// The lower limit of the control output, in millionths of a percent: 0 %.
pub const PID_CONTROL_MIN_LIMIT: i64 = 0;

/// The upper limit of the control output and of the size of each of its
/// three terms, in millionths of a percent: 100 %.
pub const PID_CONTROL_MAX_LIMIT: i64 = 100_000_000;

/// The proportional, integral and derivative gains of a PID controller, in
/// thousandths of a percent of heater power per kelvin.
#[derive(Clone, Copy, Debug, PartialEq, Eq, Structural, Hash)]
pub struct PidGains {
    pub p: i32,
    pub i: i32,
    pub d: i32,
}

/// The three terms of a control output and their bounded sum, in millionths
/// of a percent.
#[derive(Clone, Copy, Debug, PartialEq, Eq, Structural, Hash)]
pub struct ControlOutput {
    /// The proportional term.
    pub p: i64,
    /// The integral term.
    pub i: i64,
    /// The derivative term.
    pub d: i64,
    /// The sum of the three terms, limited to the range of the heater.
    pub output: i64,
}

/// What a PID computation remembers from one step to the next.
pub struct PidMemory {
    /// The integral term of the last step, in millionths of a percent.
    pub integral_term: int,
    /// The temperature measured at the last step, if there was a step.
    pub prev_measurement: Option<Temperature>,
}

/// A term of the control output, limited in size to the upper limit.
pub open spec fn limited(value: int) -> int {
    clamp(value, -100_000_000, 100_000_000)
}

/// The proportional term: the gain times the distance to the setpoint.
pub open spec fn proportional_term(
    gains: PidGains,
    setpoint: Temperature,
    measurement: Temperature,
) -> int {
    limited((setpoint@ - measurement@) * gains.p)
}

/// The integral term: the term of the step before, plus the gain times the
/// distance to the setpoint. Because the term itself is limited at each
/// step, it never winds up beyond what the heater can give.
pub open spec fn integral_term(
    gains: PidGains,
    setpoint: Temperature,
    memory: PidMemory,
    measurement: Temperature,
) -> int {
    limited(memory.integral_term + (setpoint@ - measurement@) * gains.i)
}

/// The derivative term: the gain times the fall of the measurement since
/// the step before, and nothing at the first step.
pub open spec fn derivative_term(gains: PidGains, memory: PidMemory, measurement: Temperature) -> int {
    limited(
        -(match memory.prev_measurement {
            Some(prev) => measurement@ - prev@,
            None => 0,
        }) * gains.d,
    )
}

/// The control output: the sum of the three terms, limited to the range
/// from 0 % to 100 %.
pub open spec fn control_output(
    gains: PidGains,
    setpoint: Temperature,
    memory: PidMemory,
    measurement: Temperature,
) -> int {
    clamp(
        proportional_term(gains, setpoint, measurement) + integral_term(
            gains,
            setpoint,
            memory,
            measurement,
        ) + derivative_term(gains, memory, measurement),
        0,
        100_000_000,
    )
}

/// What the computation remembers after a step.
pub open spec fn memory_after(
    gains: PidGains,
    setpoint: Temperature,
    memory: PidMemory,
    measurement: Temperature,
) -> PidMemory {
    PidMemory {
        integral_term: integral_term(gains, setpoint, memory, measurement),
        prev_measurement: Some(measurement),
    }
}

/// Whatever the gains, the setpoint, the measurement and the past, the
/// control output lies within 0 % and 100 %, and each of its terms is at
/// most 100 % in size.
pub proof fn lemma_control_output_is_bounded(
    gains: PidGains,
    setpoint: Temperature,
    memory: PidMemory,
    measurement: Temperature,
)
    ensures
        0 <= control_output(gains, setpoint, memory, measurement) <= 100_000_000,
        -100_000_000 <= proportional_term(gains, setpoint, measurement) <= 100_000_000,
        -100_000_000 <= integral_term(gains, setpoint, memory, measurement) <= 100_000_000,
        -100_000_000 <= derivative_term(gains, memory, measurement) <= 100_000_000,
{
}

/// A PID computation: gains, a setpoint, and the memory of the last step.
pub struct PidControl {
    gains: PidGains,
    setpoint: Temperature,
    integral_term: i64,
    prev_measurement: Option<Temperature>,
}

impl View for PidControl {
    type V = PidMemory;

    /// What the computation remembers.
    closed spec fn view(&self) -> PidMemory {
        PidMemory {
            integral_term: self.integral_term as int,
            prev_measurement: self.prev_measurement,
        }
    }
}

impl PidControl {
    /// The gains.
    pub closed spec fn gains(&self) -> PidGains {
        self.gains
    }

    /// The setpoint.
    pub closed spec fn setpoint(&self) -> Temperature {
        self.setpoint
    }

    /// This computation with the setpoint replaced.
    pub closed spec fn with_setpoint(self, setpoint: Temperature) -> Self {
        PidControl { setpoint, ..self }
    }

    #[verifier::type_invariant]
    spec fn integral_is_limited(self) -> bool {
        -100_000_000 <= self.integral_term <= 100_000_000
    }

    /// A computation with these gains and this setpoint, before its first
    /// step.
    pub fn new(gains: PidGains, setpoint: Temperature) -> (control: Self)
        ensures
            control.gains() == gains,
            control.setpoint() == setpoint,
            control@ == (PidMemory { integral_term: 0, prev_measurement: None }),
    {
        PidControl { gains, setpoint, integral_term: 0, prev_measurement: None }
    }

    /// The gains.
    pub fn get_gains(&self) -> (gains: PidGains)
        ensures
            gains == self.gains(),
    {
        self.gains
    }

    /// Replaces the gains. What was integrated so far stays.
    pub fn set_gains(&mut self, gains: PidGains)
        ensures
            final(self).gains() == gains,
            final(self).setpoint() == old(self).setpoint(),
            final(self)@ == old(self)@,
    {
        proof {
            use_type_invariant(&*self);
        }
        self.gains = gains;
    }

    /// The setpoint.
    pub fn get_setpoint(&self) -> (setpoint: Temperature)
        ensures
            setpoint == self.setpoint(),
    {
        self.setpoint
    }

    /// Replaces the setpoint. What was integrated so far stays.
    pub fn set_setpoint(&mut self, setpoint: Temperature)
        ensures
            *final(self) == old(self).with_setpoint(setpoint),
            final(self).setpoint() == setpoint,
            final(self).gains() == old(self).gains(),
            final(self)@ == old(self)@,
    {
        proof {
            use_type_invariant(&*self);
        }
        self.setpoint = setpoint;
    }

    /// Takes one step with the temperature `measurement`: returns the
    /// control output with its three terms, and remembers the integral term
    /// and the measurement for the next step.
    pub fn next_control_output(&mut self, measurement: Temperature) -> (out: ControlOutput)
        ensures
            final(self).gains() == old(self).gains(),
            final(self).setpoint() == old(self).setpoint(),
            final(self)@ == memory_after(
                old(self).gains(),
                old(self).setpoint(),
                old(self)@,
                measurement,
            ),
            out.p == proportional_term(old(self).gains(), old(self).setpoint(), measurement),
            out.i == integral_term(
                old(self).gains(),
                old(self).setpoint(),
                old(self)@,
                measurement,
            ),
            out.d == derivative_term(old(self).gains(), old(self)@, measurement),
            out.output == control_output(
                old(self).gains(),
                old(self).setpoint(),
                old(self)@,
                measurement,
            ),
    {
        proof {
            use_type_invariant(&*self);
        }
        let error: i64 = self.setpoint.as_millikelvin() as i64 - measurement.as_millikelvin() as i64;
        let p = limit(scaled(error, self.gains.p));
        let gained: i64 = scaled(error, self.gains.i);
        let i = limit(self.integral_term + gained);
        let fall: i64 = match self.prev_measurement {
            Some(prev) => prev.as_millikelvin() as i64 - measurement.as_millikelvin() as i64,
            None => 0,
        };
        let d = limit(scaled(fall, self.gains.d));
        let sum: i64 = p + i + d;
        let output: i64 = if sum < 0 {
            0
        } else if sum > 100_000_000 {
            100_000_000
        } else {
            sum
        };
        self.integral_term = i;
        self.prev_measurement = Some(measurement);
        ControlOutput { p, i, d, output }
    }
}

/// Why a step of the controller did not end well.
#[derive(Clone, Copy, Debug, PartialEq, Eq, Structural, Hash)]
pub enum TickError {
    /// The temperature could not be read. The heater was left as it was.
    CantReadTemperature,
    /// The temperature was read, and the safety supervisor holds it to be
    /// unsafe in the ways of the set. The heater was left as it was: the
    /// caller is to switch it off.
    SafetyViolation(TemperatureErrorSet),
    /// The heater did not take the heat percentage that it was asked for.
    SetHeaterPercentage,
}

/// A PID controller that holds the temperature of the plate at a setpoint,
/// in a closed loop from the thermistor to the cartridge heater, under the
/// eyes of the safety supervisor.
///
/// Choose the setpoint with `set_target_temperature` and call `tick` at
/// every step of the control loop.
pub struct PidController<CHP: PwmPin, S: TemperatureSensor> {
    thermistor: S,
    cartridge_heater: CartridgeHeater<CHP>,
    pid_control: PidControl,
    safety: TemperatureSafety,
    last_current_temperature_sample: Option<Temperature>,
}

impl<CHP: PwmPin, S: TemperatureSensor> PidController<CHP, S> {
    /// The sensor that the controller reads.
    pub closed spec fn thermistor(&self) -> S {
        self.thermistor
    }

    /// The heater that the controller drives.
    pub closed spec fn cartridge_heater(&self) -> CartridgeHeater<CHP> {
        self.cartridge_heater
    }

    /// The safety supervisor.
    pub closed spec fn safety(&self) -> TemperatureSafety {
        self.safety
    }

    /// The gains.
    pub closed spec fn pid_gains(&self) -> PidGains {
        self.pid_control.gains()
    }

    /// The setpoint.
    pub closed spec fn target_temperature(&self) -> Temperature {
        self.pid_control.setpoint()
    }

    /// What the PID computation remembers.
    pub closed spec fn pid_memory(&self) -> PidMemory {
        self.pid_control@
    }

    /// The last temperature that was read, if one was ever read.
    pub closed spec fn last_sample(&self) -> Option<Temperature> {
        self.last_current_temperature_sample
    }

    /// The safety supervisor is well formed.
    pub open spec fn wf(&self) -> bool {
        self.safety().wf()
    }

    /// This controller with the setpoint replaced and nothing else changed.
    pub closed spec fn with_target(self, target_temperature: Temperature) -> Self {
        PidController { pid_control: self.pid_control.with_setpoint(target_temperature), ..self }
    }

    /// Replacing the setpoint changes the setpoint and nothing else.
    pub proof fn lemma_with_target(self, target_temperature: Temperature)
        ensures
            self.with_target(target_temperature).target_temperature() == target_temperature,
            self.with_target(target_temperature).pid_gains() == self.pid_gains(),
            self.with_target(target_temperature).pid_memory() == self.pid_memory(),
            self.with_target(target_temperature).safety() == self.safety(),
            self.with_target(target_temperature).thermistor() == self.thermistor(),
            self.with_target(target_temperature).cartridge_heater() == self.cartridge_heater(),
            self.with_target(target_temperature).last_sample() == self.last_sample(),
            self.with_target(target_temperature).wf() == self.wf(),
    {
    }

    /// What a step with the reading `reading`, `delta_millis` milliseconds
    /// after the step before, makes of the controller `before`, and how it
    /// ends.
    ///
    /// - Without a reading the step ends with `CantReadTemperature`, and
    ///   nothing has changed.
    /// - With a reading, the reading is kept as the last sample and the
    ///   safety supervisor takes its step. If it finds a violation, the step
    ///   ends with `SafetyViolation` and the set of all that it found; the
    ///   heater and the PID computation are as they were.
    /// - Else the PID computation takes its step, and the heater is asked
    ///   once, for the control output, which lies within 0 % and 100 %. The
    ///   step ends well, or with `SetHeaterPercentage` if the heater did not
    ///   take it.
    pub open spec fn ticked(
        before: Self,
        reading: Option<Temperature>,
        delta_millis: int,
        after: Self,
        result: Result<(), TickError>,
    ) -> bool {
        &&& after.pid_gains() == before.pid_gains()
        &&& after.target_temperature() == before.target_temperature()
        &&& match reading {
            None => {
                &&& result == Err::<(), TickError>(TickError::CantReadTemperature)
                &&& after.last_sample() == before.last_sample()
                &&& after.safety() == before.safety()
                &&& after.pid_memory() == before.pid_memory()
                &&& after.cartridge_heater() == before.cartridge_heater()
            },
            Some(current) => {
                let found = violations(
                    before.safety().allowed_temperature_range(),
                    before.safety().keep_target_temperature_config(),
                    before.safety().rise_to_target_temperature_config(),
                    before.safety().rise_to_target_temperature_samples_count(),
                    after.safety()@,
                    current,
                );
                &&& after.last_sample() == Some(current)
                &&& after.safety().wf()
                &&& after.safety().allowed_temperature_range()
                    == before.safety().allowed_temperature_range()
                &&& after.safety().keep_target_temperature_config()
                    == before.safety().keep_target_temperature_config()
                &&& after.safety().rise_to_target_temperature_config()
                    == before.safety().rise_to_target_temperature_config()
                &&& after.safety().rise_to_target_temperature_samples_count()
                    == before.safety().rise_to_target_temperature_samples_count()
                &&& after.safety()@ == step(
                    before.safety().keep_target_temperature_config(),
                    before.safety().rise_to_target_temperature_config(),
                    before.safety().rise_to_target_temperature_samples_count(),
                    before.safety()@,
                    current,
                    before.target_temperature(),
                    delta_millis,
                )
                &&& if found != Set::<TemperatureError>::empty() {
                    &&& result matches Err(TickError::SafetyViolation(errors)) && errors@ == found
                    &&& after.pid_memory() == before.pid_memory()
                    &&& after.cartridge_heater() == before.cartridge_heater()
                } else {
                    &&& result is Ok || result == Err::<(), TickError>(
                        TickError::SetHeaterPercentage,
                    )
                    &&& after.pid_memory() == memory_after(
                        before.pid_gains(),
                        before.target_temperature(),
                        before.pid_memory(),
                        current,
                    )
                    &&& after.cartridge_heater().requested().len()
                        == before.cartridge_heater().requested().len() + 1
                    &&& after.cartridge_heater().requested().drop_last()
                        == before.cartridge_heater().requested()
                    &&& after.cartridge_heater().requested().last()@ == control_output(
                        before.pid_gains(),
                        before.target_temperature(),
                        before.pid_memory(),
                        current,
                    )
                }
            },
        }
    }

    /// A controller that reads `thermistor` and drives `cartridge_heater`,
    /// with the gains `pid_gains` and under the supervisor `safety`. Its
    /// setpoint is absolute zero until one is set, and it has no sample yet.
    pub fn new(
        thermistor: S,
        cartridge_heater: CartridgeHeater<CHP>,
        pid_gains: PidGains,
        safety: TemperatureSafety,
    ) -> (controller: Self)
        requires
            safety.wf(),
        ensures
            controller.wf(),
            controller.thermistor() == thermistor,
            controller.cartridge_heater() == cartridge_heater,
            controller.safety() == safety,
            controller.pid_gains() == pid_gains,
            controller.target_temperature()@ == 0,
            controller.pid_memory() == (PidMemory { integral_term: 0, prev_measurement: None }),
            controller.last_sample() == None::<Temperature>,
    {
        PidController {
            thermistor,
            cartridge_heater,
            pid_control: PidControl::new(pid_gains, Temperature::from_millikelvin(0)),
            safety,
            last_current_temperature_sample: None,
        }
    }

    /// The heater that the controller drives.
    pub fn get_cartridge_heater(&self) -> (heater: &CartridgeHeater<CHP>)
        ensures
            *heater == self.cartridge_heater(),
    {
        &self.cartridge_heater
    }

    /// The sensor that the controller reads.
    pub fn get_thermistor(&self) -> (thermistor: &S)
        ensures
            *thermistor == self.thermistor(),
    {
        &self.thermistor
    }

    /// The gains of the controller.
    pub fn get_pid_gains(&self) -> (gains: PidGains)
        ensures
            gains == self.pid_gains(),
    {
        self.pid_control.get_gains()
    }

    /// Replaces the gains of the controller. Nothing else changes.
    pub fn set_pid_gains(&mut self, pid_gains: &PidGains)
        ensures
            final(self).pid_gains() == *pid_gains,
            final(self).target_temperature() == old(self).target_temperature(),
            final(self).pid_memory() == old(self).pid_memory(),
            final(self).safety() == old(self).safety(),
            final(self).thermistor() == old(self).thermistor(),
            final(self).cartridge_heater() == old(self).cartridge_heater(),
            final(self).last_sample() == old(self).last_sample(),
    {
        self.pid_control.set_gains(*pid_gains);
    }

    /// Reads the temperature of the plate, and keeps it as the last sample
    /// if the reading succeeds. A failed reading changes nothing but the
    /// sensor.
    pub fn get_current_temperature(&mut self) -> (reading: Result<Temperature, S::Error>)
        ensures
            final(self).last_sample() == match reading {
                Ok(temperature) => Some(temperature),
                Err(_) => old(self).last_sample(),
            },
            final(self).pid_gains() == old(self).pid_gains(),
            final(self).target_temperature() == old(self).target_temperature(),
            final(self).pid_memory() == old(self).pid_memory(),
            final(self).safety() == old(self).safety(),
            final(self).cartridge_heater() == old(self).cartridge_heater(),
    {
        let reading = self.thermistor.read_temperature();
        self.keep_reading(reading)
    }

    /// Takes in what a reading of the sensor gave: a temperature is kept as
    /// the last sample, a failure leaves the last sample as it was. The
    /// reading is handed back as it came, and nothing else changes.
    pub fn keep_reading(&mut self, reading: Result<Temperature, S::Error>) -> (kept: Result<
        Temperature,
        S::Error,
    >)
        ensures
            kept == reading,
            final(self).last_sample() == match reading {
                Ok(temperature) => Some(temperature),
                Err(_) => old(self).last_sample(),
            },
            final(self).thermistor() == old(self).thermistor(),
            final(self).pid_gains() == old(self).pid_gains(),
            final(self).target_temperature() == old(self).target_temperature(),
            final(self).pid_memory() == old(self).pid_memory(),
            final(self).safety() == old(self).safety(),
            final(self).cartridge_heater() == old(self).cartridge_heater(),
    {
        match reading {
            Ok(temperature) => {
                self.last_current_temperature_sample = Some(temperature);
                Ok(temperature)
            },
            Err(error) => Err(error),
        }
    }

    /// The temperature that `get_current_temperature` read when it last
    /// succeeded, or `None` if it never has.
    pub fn get_last_sample_of_current_temperature(&self) -> (sample: Option<Temperature>)
        ensures
            sample == self.last_sample(),
    {
        self.last_current_temperature_sample
    }

    /// The setpoint of the controller.
    pub fn get_target_temperature(&self) -> (target: Temperature)
        ensures
            target == self.target_temperature(),
    {
        self.pid_control.get_setpoint()
    }

    /// Replaces the setpoint of the controller, for the steps to come. The
    /// safety supervisor is not told: it notices at its next step.
    pub fn set_target_temperature(&mut self, target_temperature: Temperature)
        ensures
            *final(self) == old(self).with_target(target_temperature),
            final(self).target_temperature() == target_temperature,
            final(self).pid_gains() == old(self).pid_gains(),
            final(self).pid_memory() == old(self).pid_memory(),
            final(self).safety() == old(self).safety(),
            final(self).thermistor() == old(self).thermistor(),
            final(self).cartridge_heater() == old(self).cartridge_heater(),
            final(self).last_sample() == old(self).last_sample(),
    {
        self.pid_control.set_setpoint(target_temperature);
    }

    /// Takes one step of the control loop with a reading that was taken
    /// already: see [`Self::ticked`].
    pub fn tick_with_reading(&mut self, reading: Option<Temperature>, delta_millis: u64) -> (result:
        Result<(), TickError>)
        requires
            old(self).wf(),
        ensures
            final(self).wf(),
            final(self).thermistor() == old(self).thermistor(),
            Self::ticked(*old(self), reading, delta_millis as int, *final(self), result),
    {
        let current_temperature = match reading {
            Some(temperature) => temperature,
            None => {
                return Err(TickError::CantReadTemperature);
            },
        };
        self.last_current_temperature_sample = Some(current_temperature);

        let safety_errors = self.safety.is_temperature_safe(
            current_temperature,
            self.pid_control.get_setpoint(),
            delta_millis,
        );
        if !safety_errors.is_empty() {
            return Err(TickError::SafetyViolation(safety_errors));
        }
        let pwm_value = self.pid_control.next_control_output(current_temperature).output;
        let ghost asked = self.cartridge_heater.requested();
        let done = self.cartridge_heater.set_heat_percentage(Percentage::clamped(pwm_value));
        assert(self.cartridge_heater.requested().drop_last() =~= asked);
        match done {
            Ok(()) => Ok(()),
            Err(_) => Err(TickError::SetHeaterPercentage),
        }
    }

    /// Takes one step of the control loop, `delta_millis` milliseconds after
    /// the step before: reads the temperature, asks the safety supervisor,
    /// and sets the heater to the control output. See [`Self::ticked`] for
    /// what each outcome leaves behind; the reading that it speaks of is the
    /// last sample after the step, unless the step ends with
    /// `CantReadTemperature`.
    pub fn tick(&mut self, delta_millis: u64) -> (result: Result<(), TickError>)
        requires
            old(self).wf(),
        ensures
            final(self).wf(),
            Self::ticked(
                *old(self),
                if result == Err::<(), TickError>(TickError::CantReadTemperature) {
                    None
                } else {
                    final(self).last_sample()
                },
                delta_millis as int,
                *final(self),
                result,
            ),
    {
        let reading = match self.get_current_temperature() {
            Ok(temperature) => Some(temperature),
            Err(_) => None,
        };
        self.tick_with_reading(reading, delta_millis)
    }
}

/// A step that ends with an error other than the heater's own leaves the
/// heater exactly as it was: it was not asked for anything.
pub proof fn lemma_error_leaves_heater_alone<CHP: PwmPin, S: TemperatureSensor>(
    before: PidController<CHP, S>,
    reading: Option<Temperature>,
    delta_millis: int,
    after: PidController<CHP, S>,
    result: Result<(), TickError>,
)
    requires
        PidController::ticked(before, reading, delta_millis, after, result),
        result is Err,
        result != Err::<(), TickError>(TickError::SetHeaterPercentage),
    ensures
        after.cartridge_heater() == before.cartridge_heater(),
        after.cartridge_heater().requested() == before.cartridge_heater().requested(),
{
}

/// Whenever a step asks the heater for anything, it asks once, and for a
/// heat percentage within 0 % and 100 %.
pub proof fn lemma_heater_is_asked_within_bounds<CHP: PwmPin, S: TemperatureSensor>(
    before: PidController<CHP, S>,
    reading: Option<Temperature>,
    delta_millis: int,
    after: PidController<CHP, S>,
    result: Result<(), TickError>,
)
    requires
        PidController::ticked(before, reading, delta_millis, after, result),
        after.cartridge_heater().requested() != before.cartridge_heater().requested(),
    ensures
        after.cartridge_heater().requested().len() == before.cartridge_heater().requested().len()
            + 1,
        0 <= after.cartridge_heater().requested().last()@ <= 100_000_000,
{
}

/// A distance in millikelvin times a gain.
fn scaled(distance: i64, gain: i32) -> (product: i64)
    requires
        -0xffff_ffff <= distance <= 0xffff_ffff,
    ensures
        product == distance * gain,
        -0x7fff_ffff_8000_0000 <= product <= 0x7fff_ffff_8000_0000,
{
    assert(-0x7fff_ffff_8000_0000 <= distance * gain <= 0x7fff_ffff_8000_0000) by (nonlinear_arith)
        requires
            -0xffff_ffff <= distance <= 0xffff_ffff,
            -0x8000_0000 <= gain <= 0x7fff_ffff,
    ;
    distance * (gain as i64)
}

/// A term limited in size to the upper limit.
fn limit(value: i64) -> (term: i64)
    ensures
        term == limited(value as int),
{
    if value < -100_000_000 {
        -100_000_000
    } else if value > 100_000_000 {
        100_000_000
    } else {
        value
    }
}

} // verus!
