//! The heated plate and its parts.

use crate::hot_plate::config::Configuration;
use crate::hot_plate::drivers::cartridge_heater::CartridgeHeater;
use crate::hot_plate::drivers::fan::Fan;
use crate::hot_plate::drivers::thermistor::Thermistor;
use crate::hot_plate::hal::pwm::PwmPin;
use crate::hot_plate::peripherals::Peripherals;
use crate::hot_plate::process::{elapsed_after, setpoint_at, DefaultReflowProcess};
use crate::hot_plate::temperature::pid::{PidController, PidMemory};
use crate::hot_plate::temperature::safety::{blank_memory, TemperatureSafety};
use crate::hot_plate::temperature::PidUpdateError;
use crate::utils::math::Percentage;
use crate::utils::measurement::temperature::Temperature;
use vstd::prelude::*;

pub mod config;
pub mod drivers;
pub mod hal;
pub mod peripherals;
pub mod process;
pub mod screen;
pub mod temperature;

verus! {

/// A peripheral that a plate cannot be made without.
#[derive(Clone, Copy, Debug, PartialEq, Eq, Structural, Hash)]
pub enum Peripheral {
    FanPin,
    Thermistor1,
    HeaterPin,
}

impl Peripheral {
    /// The name of the peripheral, for a message.
    pub fn name(&self) -> (name: &'static str)
        ensures
            name@ == match self {
                Peripheral::FanPin => "Fan pin"@,
                Peripheral::Thermistor1 => "Thermistor 1 pin"@,
                Peripheral::HeaterPin => "Heater pin"@,
            },
    {
        match self {
            Peripheral::FanPin => "Fan pin",
            Peripheral::Thermistor1 => "Thermistor 1 pin",
            Peripheral::HeaterPin => "Heater pin",
        }
    }
}

/// Why a plate could not be made.
#[derive(Clone, Copy, Debug, PartialEq, Eq, Structural, Hash)]
pub enum CreationError {
    /// The configuration is not sound.
    InvalidConfiguration,
    /// The board did not have this peripheral to take.
    PeripheralMissing { peripheral: Peripheral },
}

/// Why a step of the plate did not end well.
#[derive(Clone, Copy, Debug, PartialEq, Eq, Structural, Hash)]
pub enum TickError {
    /// The step of the temperature control did not end well.
    PidHeater(PidUpdateError),
    /// The reflow process has ended, and the fan did not take full speed.
    SetFanSpeed,
}

/// A heated plate: a cartridge heater under a PID loop, a fan, and the
/// reflow process that it follows, if it follows one.
pub struct HotPlate<P: Peripherals> {
    reflow_process: Option<DefaultReflowProcess>,
    pid_controller: PidController<P::HeaterPin, P::Thermistor1>,
    fan: Fan<P::FanPin>,
}

impl<P: Peripherals> HotPlate<P> {
    /// The reflow process that the plate follows, if it follows one.
    pub closed spec fn reflow_process(&self) -> Option<DefaultReflowProcess> {
        self.reflow_process
    }

    /// The temperature control.
    pub closed spec fn pid_controller(&self) -> PidController<P::HeaterPin, P::Thermistor1> {
        self.pid_controller
    }

    /// The fan.
    pub closed spec fn fan(&self) -> Fan<P::FanPin> {
        self.fan
    }

    /// The parts of the plate are well formed.
    pub open spec fn wf(&self) -> bool {
        &&& self.pid_controller().wf()
        &&& self.reflow_process() matches Some(process) ==> process.wf()
    }

    /// How a step of the temperature control, from `before` to `after`,
    /// shows in the result of a step of the plate.
    pub open spec fn control_ticked(
        before: PidController<P::HeaterPin, P::Thermistor1>,
        delta_millis: int,
        after: PidController<P::HeaterPin, P::Thermistor1>,
        result: Result<(), TickError>,
    ) -> bool {
        match result {
            Ok(()) => PidController::ticked(
                before,
                after.last_sample(),
                delta_millis,
                after,
                Ok::<(), PidUpdateError>(()),
            ),
            Err(TickError::PidHeater(error)) => PidController::ticked(
                before,
                if error == PidUpdateError::CantReadTemperature {
                    None
                } else {
                    after.last_sample()
                },
                delta_millis,
                after,
                Err::<(), PidUpdateError>(error),
            ),
            Err(TickError::SetFanSpeed) => false,
        }
    }

    /// What a step, `delta_millis` milliseconds after the step before,
    /// makes of the plate `before`, and how it ends.
    ///
    /// - A plate that follows no process takes a step of its temperature
    ///   control, with the setpoint that it has.
    /// - A plate that follows a process advances it first. While the
    ///   process goes on, its setpoint becomes that of the temperature
    ///   control, which then takes its step.
    /// - When the process has ended, the plate lets go of it and asks the
    ///   fan for full speed. If the fan does not take it, the step ends
    ///   there with `SetFanSpeed`; else the temperature control takes its
    ///   step with the setpoint that it has.
    pub open spec fn ticked(
        before: Self,
        delta_millis: int,
        after: Self,
        result: Result<(), TickError>,
    ) -> bool {
        match before.reflow_process() {
            None => {
                &&& after.reflow_process() is None
                &&& after.fan() == before.fan()
                &&& Self::control_ticked(
                    before.pid_controller(),
                    delta_millis,
                    after.pid_controller(),
                    result,
                )
            },
            Some(process) => {
                let elapsed = elapsed_after(process.elapsed_millis(), delta_millis);
                match setpoint_at(process.keyframes(), 200, elapsed) {
                    Some(millicelsius) => {
                        &&& after.reflow_process() matches Some(advanced) && advanced.wf()
                            && advanced.keyframes() == process.keyframes()
                            && advanced.elapsed_millis() == elapsed
                        &&& after.fan() == before.fan()
                        &&& Self::control_ticked(
                            before.pid_controller().with_target(
                                Temperature::of_millicelsius(millicelsius),
                            ),
                            delta_millis,
                            after.pid_controller(),
                            result,
                        )
                    },
                    None => {
                        &&& after.reflow_process() is None
                        &&& after.fan().requested().len() == before.fan().requested().len() + 1
                        &&& after.fan().requested().drop_last() == before.fan().requested()
                        &&& after.fan().requested().last()@ == 100_000_000
                        &&& after.fan().min_duty_cycle_to_move()
                            == before.fan().min_duty_cycle_to_move()
                        &&& if result == Err::<(), TickError>(TickError::SetFanSpeed) {
                            after.pid_controller() == before.pid_controller()
                        } else {
                            Self::control_ticked(
                                before.pid_controller(),
                                delta_millis,
                                after.pid_controller(),
                                result,
                            )
                        }
                    },
                }
            },
        }
    }

    /// Makes a plate of the parts that a board gave, each `None` if the
    /// board did not have it.
    ///
    /// An unsound configuration is refused first. Then the first part that
    /// is missing, of the fan pin, the thermistor and the heater pin in this
    /// order, is reported. Else the plate is made: it follows no process,
    /// its setpoint is absolute zero, and nothing is remembered yet.
    pub fn from_parts(
        fan_pin: Option<P::FanPin>,
        thermistor1: Option<P::Thermistor1>,
        heater_pin: Option<P::HeaterPin>,
        configuration: Configuration,
    ) -> (plate: Result<Self, CreationError>)
        ensures
            match plate {
                Ok(plate) => {
                    &&& configuration.wf()
                    &&& fan_pin matches Some(pin) && plate.fan().pin() == pin
                    &&& thermistor1 matches Some(sensor) && plate.pid_controller().thermistor()
                        == sensor
                    &&& heater_pin matches Some(pin)
                        && plate.pid_controller().cartridge_heater().pin() == pin
                    &&& Self::made_with(plate, configuration)
                },
                Err(error) => error == if !configuration.wf() {
                    CreationError::InvalidConfiguration
                } else if fan_pin is None {
                    CreationError::PeripheralMissing { peripheral: Peripheral::FanPin }
                } else if thermistor1 is None {
                    CreationError::PeripheralMissing { peripheral: Peripheral::Thermistor1 }
                } else {
                    CreationError::PeripheralMissing { peripheral: Peripheral::HeaterPin }
                } && (!configuration.wf() || fan_pin is None || thermistor1 is None
                    || heater_pin is None),
            },
    {
        if !configuration.is_valid() {
            return Err(CreationError::InvalidConfiguration);
        }
        let fan_pin = match fan_pin {
            Some(pin) => pin,
            None => {
                return Err(CreationError::PeripheralMissing { peripheral: Peripheral::FanPin });
            },
        };
        let thermistor1 = match thermistor1 {
            Some(sensor) => sensor,
            None => {
                return Err(
                    CreationError::PeripheralMissing { peripheral: Peripheral::Thermistor1 },
                );
            },
        };
        let heater_pin = match heater_pin {
            Some(pin) => pin,
            None => {
                return Err(CreationError::PeripheralMissing { peripheral: Peripheral::HeaterPin });
            },
        };
        Ok(
            HotPlate {
                reflow_process: None,
                fan: Fan::new(fan_pin, configuration.fan_min_duty_cycle_to_move),
                pid_controller: PidController::new(
                    thermistor1,
                    CartridgeHeater::new(heater_pin),
                    configuration.pid.pid_gains,
                    TemperatureSafety::new(
                        configuration.pid.safety.allowed_temperature_range,
                        configuration.pid.safety.keep_target_temperature_config,
                        configuration.pid.safety.rise_to_target_temperature_config,
                        configuration.pid.safety.rise_to_target_temperature_samples_count,
                    ),
                ),
            },
        )
    }

    /// The plate is as it is made with `configuration`: well formed, without
    /// a process, configured as asked, and with nothing remembered.
    pub open spec fn made_with(plate: Self, configuration: Configuration) -> bool {
        &&& plate.wf()
        &&& plate.reflow_process() is None
        &&& plate.fan().min_duty_cycle_to_move() == configuration.fan_min_duty_cycle_to_move
        &&& plate.fan().requested() == Seq::<Percentage>::empty()
        &&& plate.pid_controller().cartridge_heater().requested() == Seq::<Percentage>::empty()
        &&& plate.pid_controller().pid_gains() == configuration.pid.pid_gains
        &&& plate.pid_controller().target_temperature()@ == 0
        &&& plate.pid_controller().last_sample() is None
        &&& plate.pid_controller().pid_memory() == (PidMemory {
            integral_term: 0,
            prev_measurement: None,
        })
        &&& plate.pid_controller().safety()@ == blank_memory()
        &&& plate.pid_controller().safety().allowed_temperature_range()
            == configuration.pid.safety.allowed_temperature_range
        &&& plate.pid_controller().safety().keep_target_temperature_config()
            == configuration.pid.safety.keep_target_temperature_config
        &&& plate.pid_controller().safety().rise_to_target_temperature_config()
            == configuration.pid.safety.rise_to_target_temperature_config
        &&& plate.pid_controller().safety().rise_to_target_temperature_samples_count()
            == configuration.pid.safety.rise_to_target_temperature_samples_count
    }

    /// Makes a plate of the peripherals of a board.
    ///
    /// An unsound configuration is refused before anything is taken from the
    /// board. Else the fan pin, the thermistor and the heater pin are taken,
    /// and the plate is made of them as [`Self::from_parts`] says.
    pub fn new(mut peripherals: P, configuration: Configuration) -> (plate: Result<
        Self,
        CreationError,
    >)
        ensures
            !configuration.wf() <==> plate == Err::<Self, CreationError>(
                CreationError::InvalidConfiguration,
            ),
            plate matches Ok(plate) ==> Self::made_with(plate, configuration),
    {
        if !configuration.is_valid() {
            return Err(CreationError::InvalidConfiguration);
        }
        let thermistor = Thermistor::new(
            configuration.pid.thermistor.beta,
            configuration.pid.thermistor.resistance_at_t0,
            configuration.pid.thermistor.other_resistance,
        );
        let fan_pin = peripherals.take_fan_pin();
        let thermistor1 = match thermistor {
            Some(thermistor) => peripherals.take_thermistor1(thermistor),
            None => None,
        };
        let heater_pin = peripherals.take_heater_pin();
        Self::from_parts(fan_pin, thermistor1, heater_pin, configuration)
    }

    /// The temperature control.
    pub fn get_pid_controller(&self) -> (controller: &PidController<P::HeaterPin, P::Thermistor1>)
        ensures
            *controller == self.pid_controller(),
    {
        &self.pid_controller
    }

    /// The fan.
    pub fn get_fan(&self) -> (fan: &Fan<P::FanPin>)
        ensures
            *fan == self.fan(),
    {
        &self.fan
    }

    /// Tells whether the plate follows a reflow process.
    pub fn is_reflowing(&self) -> (reflowing: bool)
        ensures
            reflowing == self.reflow_process() is Some,
    {
        self.reflow_process.is_some()
    }

    /// Starts the default reflow process, at time zero, in place of the
    /// process that the plate follows, if it follows one.
    pub fn start_reflow_process(&mut self)
        requires
            old(self).wf(),
        ensures
            final(self).wf(),
            final(self).pid_controller() == old(self).pid_controller(),
            final(self).fan() == old(self).fan(),
            final(self).reflow_process() matches Some(process) && process.elapsed_millis() == 0
                && process.keyframes().len() == 5,
    {
        self.reflow_process = Some(DefaultReflowProcess::start_default());
    }

    /// Takes one step of the plate, `delta_millis` milliseconds after the
    /// step before: see [`Self::ticked`].
    pub fn tick(&mut self, delta_millis: u64) -> (result: Result<(), TickError>)
        requires
            old(self).wf(),
        ensures
            final(self).wf(),
            Self::ticked(*old(self), delta_millis as int, *final(self), result),
    {
        if let Some(mut reflow_process) = self.reflow_process.take() {
            if let Some(target_temperature) = reflow_process.tick(delta_millis) {
                proof {
                    Temperature::lemma_of_millikelvin(target_temperature@);
                }
                self.pid_controller.set_target_temperature(target_temperature);
                self.reflow_process = Some(reflow_process);
            } else {
                let done = self.on_reflow_finished();
                if done.is_err() {
                    return Err(TickError::SetFanSpeed);
                }
            }
        }
        match self.pid_controller.tick(delta_millis) {
            Ok(()) => Ok(()),
            Err(error) => Err(TickError::PidHeater(error)),
        }
    }

    /// Asks the fan for full speed, to cool the plate down.
    fn on_reflow_finished(&mut self) -> (done: Result<(), <P::FanPin as PwmPin>::Error>)
        ensures
            final(self).reflow_process == old(self).reflow_process,
            final(self).pid_controller == old(self).pid_controller,
            final(self).fan.requested().len() == old(self).fan.requested().len() + 1,
            final(self).fan.requested().drop_last() == old(self).fan.requested(),
            final(self).fan.requested().last()@ == 100_000_000,
            final(self).fan.min_duty_cycle_to_move() == old(self).fan.min_duty_cycle_to_move(),
    {
        let ghost asked = self.fan.requested();
        let done = self.fan.set_speed(Percentage::full());
        assert(self.fan.requested().drop_last() =~= asked);
        done
    }
}

} // verus!
