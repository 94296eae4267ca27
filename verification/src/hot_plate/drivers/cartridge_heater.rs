//! The cartridge heater.

use crate::hot_plate::hal::pwm::PwmPin;
use crate::utils::math::Percentage;
use vstd::prelude::*;

verus! {

/// A resistive cartridge heater behind a pulse-width modulated pin.
///
/// The heater keeps a record, for proofs only, of every heat percentage that
/// it was asked for.
pub struct CartridgeHeater<P: PwmPin> {
    pin: P,
    asked: Ghost<Seq<Percentage>>,
}

impl<P: PwmPin> CartridgeHeater<P> {
    /// The pin that the heater is driven through.
    pub closed spec fn pin(&self) -> P {
        self.pin
    }

    /// Every heat percentage that the heater was asked for, oldest first,
    /// whether or not the pin took it.
    pub closed spec fn requested(&self) -> Seq<Percentage> {
        self.asked@
    }

    /// The heater behind `pin`, which was not asked for anything yet.
    pub fn new(pin: P) -> (heater: Self)
        ensures
            heater.pin() == pin,
            heater.requested() == Seq::<Percentage>::empty(),
    {
        CartridgeHeater { pin, asked: Ghost(Seq::empty()) }
    }

    /// The pin that the heater is driven through.
    pub fn get_pin(&self) -> (pin: &P)
        ensures
            *pin == self.pin(),
    {
        &self.pin
    }

    /// The share of its full power that the heater runs at, as its pin
    /// tells it: a ratio within 0 % and 100 %, whatever the pin answers. The
    /// heater itself is not asked for anything.
    pub fn get_heat_percentage(&self) -> (percentage: Percentage)
        ensures
            0 <= percentage@ <= 100_000_000,
    {
        let percentage = self.pin.get_duty_cycle();
        proof {
            use_type_invariant(&percentage);
        }
        percentage
    }

    /// Asks the heater to run at `percentage` of its full power, by asking
    /// its pin for that duty cycle.
    pub fn set_heat_percentage(&mut self, percentage: Percentage) -> (done: Result<(), P::Error>)
        ensures
            final(self).requested() == old(self).requested().push(percentage),
    {
        let done = self.pin.set_duty_cycle(percentage);
        proof {
            self.asked@ = self.asked@.push(percentage);
        }
        done
    }

    /// Gives the pin back.
    pub fn release(self) -> (pin: P)
        ensures
            pin == self.pin(),
    {
        self.pin
    }
}

} // verus!
