//! Stand-ins for the hardware, for trying the plate out without any.

use crate::hot_plate::hal::pwm::PwmPin;
use crate::hot_plate::hal::sensor::TemperatureSensor;
use crate::utils::math::Percentage;
use crate::utils::measurement::temperature::Temperature;
use vstd::prelude::*;

verus! {

/// The error of a simulated device that was told to fail.
#[derive(Clone, Copy, Debug, PartialEq, Eq, Structural)]
pub struct SimulatedFault;

/// A pin that keeps a record of every duty cycle it was asked for.
pub struct SimulatedPwmPin {
    /// Every duty cycle asked for, oldest first.
    pub requests: Vec<Percentage>,
    /// The duty cycle that the pin runs at.
    pub duty_cycle: Percentage,
    /// Whether the pin refuses what it is asked for.
    pub failing: bool,
}

impl SimulatedPwmPin {
    /// A pin at 0 % that was never asked for anything and takes what it is
    /// asked for.
    pub fn new() -> (pin: Self)
        ensures
            pin.requests@ == Seq::<Percentage>::empty(),
            pin.duty_cycle@ == 0,
            !pin.failing,
    {
        SimulatedPwmPin { requests: Vec::new(), duty_cycle: Percentage::zero(), failing: false }
    }
}

impl PwmPin for SimulatedPwmPin {
    type Error = SimulatedFault;

    fn get_duty_cycle(&self) -> (percentage: Percentage)
        ensures
            percentage == self.duty_cycle,
    {
        self.duty_cycle
    }

    /// Records the request, and takes it unless the pin is failing.
    fn set_duty_cycle(&mut self, percentage: Percentage) -> (done: Result<(), SimulatedFault>)
        ensures
            final(self).requests@ == old(self).requests@.push(percentage),
            final(self).failing == old(self).failing,
            done is Err <==> old(self).failing,
            final(self).duty_cycle == if old(self).failing {
                old(self).duty_cycle
            } else {
                percentage
            },
    {
        self.requests.push(percentage);
        if self.failing {
            Err(SimulatedFault)
        } else {
            self.duty_cycle = percentage;
            Ok(())
        }
    }
}

/// A sensor that replays a script of readings, one per measurement, and
/// fails where the script holds `None` and once the script is over.
pub struct SimulatedSensor {
    /// The readings, first to last.
    pub script: Vec<Option<Temperature>>,
    /// The number of measurements taken so far.
    pub taken: usize,
}

impl SimulatedSensor {
    /// A sensor that is about to replay `script` from its start.
    pub fn new(script: Vec<Option<Temperature>>) -> (sensor: Self)
        ensures
            sensor.script == script,
            sensor.taken == 0,
    {
        SimulatedSensor { script, taken: 0 }
    }
}

impl TemperatureSensor for SimulatedSensor {
    type Error = SimulatedFault;

    fn read_temperature(&mut self) -> (reading: Result<Temperature, SimulatedFault>)
        ensures
            final(self).script == old(self).script,
            old(self).taken < old(self).script@.len() ==> {
                &&& final(self).taken == old(self).taken + 1
                &&& reading == match old(self).script@[old(self).taken as int] {
                    Some(temperature) => Ok::<Temperature, SimulatedFault>(temperature),
                    None => Err::<Temperature, SimulatedFault>(SimulatedFault),
                }
            },
            old(self).taken >= old(self).script@.len() ==> {
                &&& final(self).taken == old(self).taken
                &&& reading == Err::<Temperature, SimulatedFault>(SimulatedFault)
            },
    {
        if self.taken < self.script.len() {
            let entry = self.script[self.taken];
            self.taken += 1;
            match entry {
                Some(temperature) => Ok(temperature),
                None => Err(SimulatedFault),
            }
        } else {
            Err(SimulatedFault)
        }
    }
}

} // verus!
