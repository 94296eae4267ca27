//! The cooling fan.

use crate::hot_plate::hal::pwm::PwmPin;
use crate::utils::math::Percentage;
use vstd::prelude::*;

verus! {

/// A fan behind a pulse-width modulated pin.
///
/// The fan keeps a record, for proofs only, of every speed that it was asked
/// for.
pub struct Fan<P: PwmPin> {
    pin: P,
    min_duty_cycle_to_move: Percentage,
    asked: Ghost<Seq<Percentage>>,
}

impl<P: PwmPin> Fan<P> {
    /// The pin that the fan is driven through.
    pub closed spec fn pin(&self) -> P {
        self.pin
    }

    /// The smallest duty cycle at which the fan turns.
    pub closed spec fn min_duty_cycle_to_move(&self) -> Percentage {
        self.min_duty_cycle_to_move
    }

    /// Every speed that the fan was asked for, oldest first, whether or not
    /// the pin took it.
    pub closed spec fn requested(&self) -> Seq<Percentage> {
        self.asked@
    }

    /// The fan behind `pin`, which turns from `min_duty_cycle_to_move` on
    /// and was not asked for anything yet.
    pub fn new(pin: P, min_duty_cycle_to_move: Percentage) -> (fan: Self)
        ensures
            fan.pin() == pin,
            fan.min_duty_cycle_to_move() == min_duty_cycle_to_move,
            fan.requested() == Seq::<Percentage>::empty(),
    {
        Fan { pin, min_duty_cycle_to_move, asked: Ghost(Seq::empty()) }
    }

    /// The pin that the fan is driven through.
    pub fn get_pin(&self) -> (pin: &P)
        ensures
            *pin == self.pin(),
    {
        &self.pin
    }

    /// The smallest duty cycle at which the fan turns.
    pub fn get_min_duty_cycle_to_move(&self) -> (percentage: Percentage)
        ensures
            percentage == self.min_duty_cycle_to_move(),
    {
        self.min_duty_cycle_to_move
    }

    /// Asks the fan to run at `speed`, by asking its pin for that duty
    /// cycle, as it is.
    pub fn set_speed(&mut self, speed: Percentage) -> (done: Result<(), P::Error>)
        ensures
            final(self).requested() == old(self).requested().push(speed),
            final(self).min_duty_cycle_to_move() == old(self).min_duty_cycle_to_move(),
    {
        let done = self.pin.set_duty_cycle(speed);
        proof {
            self.asked@ = self.asked@.push(speed);
        }
        done
    }

    /// Gives the pin back.
    pub fn release(self) -> (pin: P)
        ensures
            pin == self.pin(),
    {
        self.pin
    }
}

} // verus!
