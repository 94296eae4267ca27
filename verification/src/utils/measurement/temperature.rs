//! Absolute temperatures.

use vstd::prelude::*;

verus! {

/// An absolute temperature, stored in thousandths of a kelvin.
///
/// Temperatures are ordered by the stored value. A kelvin reading and a
/// Celsius reading of the same temperature differ by the constant offset
/// [`Temperature::ZERO_CELSIUS_IN_MILLIKELVIN`], which the stored unit holds
/// exactly: converting between the two scales never rounds.
#[derive(Clone, Copy, Debug, PartialEq, Eq, Structural, PartialOrd, Ord, Hash)]
pub struct Temperature {
    millikelvin: u32,
}

impl View for Temperature {
    type V = int;

    /// The temperature in millikelvin.
    closed spec fn view(&self) -> int {
        self.millikelvin as int
    }
}

impl Temperature {
    /// 0 °C in millikelvin (273.15 K).
    pub const ZERO_CELSIUS_IN_MILLIKELVIN: u32 = 273_150;

    /// The temperature in thousandths of a degree Celsius.
    pub open spec fn millicelsius(self) -> int {
        self@ - 273_150
    }

    /// The temperature of `millikelvin` thousandths of a kelvin, for a
    /// number that the stored unit holds.
    pub closed spec fn of_millikelvin(millikelvin: int) -> Temperature {
        Temperature { millikelvin: millikelvin as u32 }
    }

    /// The temperature of `millicelsius` thousandths of a degree Celsius,
    /// for a number that the stored unit holds.
    pub open spec fn of_millicelsius(millicelsius: int) -> Temperature {
        Self::of_millikelvin(millicelsius + 273_150)
    }

    /// `of_millikelvin` gives the temperature with that reading, and it is
    /// the only one.
    pub proof fn lemma_of_millikelvin(millikelvin: int)
        requires
            0 <= millikelvin <= u32::MAX,
        ensures
            Self::of_millikelvin(millikelvin)@ == millikelvin,
            forall|t: Temperature| t@ == millikelvin ==> t == Self::of_millikelvin(millikelvin),
    {
    }

    /// Every temperature lies between absolute zero and the largest value
    /// that the stored unit can hold.
    pub proof fn lemma_view_range(self)
        ensures
            0 <= self@ <= u32::MAX,
    {
    }

    /// The temperature of `millikelvin` thousandths of a kelvin.
    pub fn from_millikelvin(millikelvin: u32) -> (temperature: Self)
        ensures
            temperature@ == millikelvin,
            temperature == Self::of_millikelvin(millikelvin as int),
    {
        Temperature { millikelvin }
    }

    /// The temperature in thousandths of a kelvin.
    pub fn as_millikelvin(&self) -> (millikelvin: u32)
        ensures
            millikelvin == self@,
    {
        self.millikelvin
    }

    /// The temperature of `millicelsius` thousandths of a degree Celsius, or
    /// `None` when that lies below absolute zero.
    pub fn from_millicelsius(millicelsius: i32) -> (temperature: Option<Self>)
        ensures
            temperature is Some <==> millicelsius >= -273_150,
            temperature matches Some(t) ==> t.millicelsius() == millicelsius && t
                == Self::of_millicelsius(millicelsius as int),
    {
        if millicelsius >= -273_150 {
            let millikelvin: i64 = millicelsius as i64 + 273_150;
            Some(Temperature { millikelvin: millikelvin as u32 })
        } else {
            None
        }
    }

    /// The temperature in thousandths of a degree Celsius.
    pub fn as_millicelsius(&self) -> (millicelsius: i64)
        ensures
            millicelsius == self.millicelsius(),
    {
        self.millikelvin as i64 - 273_150
    }

    /// The temperature of `celsius` whole degrees Celsius.
    pub fn from_celsius(celsius: u16) -> (temperature: Self)
        ensures
            temperature.millicelsius() == celsius * 1000,
            temperature == Self::of_millicelsius(celsius * 1000),
    {
        Temperature { millikelvin: celsius as u32 * 1000 + 273_150 }
    }

    /// The distance between two temperatures, in millikelvin.
    pub fn abs_diff(&self, other: Temperature) -> (distance: u32)
        ensures
            distance == if self@ >= other@ { self@ - other@ } else { other@ - self@ },
    {
        if self.millikelvin >= other.millikelvin {
            self.millikelvin - other.millikelvin
        } else {
            other.millikelvin - self.millikelvin
        }
    }
}

/// A temperature is determined by its reading on either scale: two
/// temperatures are the same exactly when their kelvin readings agree, and
/// exactly when their Celsius readings agree.
pub proof fn lemma_reading_determines_temperature(a: Temperature, b: Temperature)
    ensures
        a == b <==> a@ == b@,
        a == b <==> a.millicelsius() == b.millicelsius(),
{
}

} // verus!
