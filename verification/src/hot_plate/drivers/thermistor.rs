//! The thermistor and the voltage divider that it is read through.

use crate::utils::math::Percentage;
use vstd::prelude::*;

verus! {

/// Why a reading of the thermistor gives no resistance.
#[derive(Clone, Copy, Debug, PartialEq, Eq, Structural, Hash)]
pub enum SensorReadFailure {
    /// The reading is 0 %: the thermistor would have no resistance at all,
    /// as when its leads are shorted.
    Shorted,
    /// The reading is 100 %: the thermistor would have infinite resistance,
    /// as when it is not connected.
    Open,
}

/// A thermistor with a negative temperature coefficient, between the
/// measuring point and ground, under a fixed resistor to the supply.
///
/// The thermistor follows the beta equation: its resistance `r` at the
/// temperature `t` satisfies `1 / t = 1 / t0 + ln(r / r0) / beta`, where
/// `t0` is 25 °C and `r0` the resistance at that temperature.
#[derive(Clone, Copy, Debug, PartialEq, Eq, Structural, Hash)]
pub struct Thermistor {
    beta: u32,
    resistance_at_t0: u32,
    other_resistance: u32,
}

/// The resistance of the thermistor, in thousandths of an ohm and rounded
/// down, when `ratio` millionths of a percent of the supply voltage lie
/// across it and the resistor above it has `other_resistance` ohms.
pub open spec fn divider_resistance(other_resistance: int, ratio: int) -> int {
    (other_resistance * 1000 * ratio) / (100_000_000 - ratio)
}

impl Thermistor {
    /// The reference temperature of the beta equation, 25 °C, in
    /// millikelvin.
    pub const T0_IN_MILLIKELVIN: u32 = 298_150;

    /// The beta coefficient, in kelvin.
    pub closed spec fn beta(&self) -> int {
        self.beta as int
    }

    /// The resistance at the reference temperature, in ohms.
    pub closed spec fn resistance_at_t0(&self) -> int {
        self.resistance_at_t0 as int
    }

    /// The resistance of the fixed resistor of the divider, in ohms.
    pub closed spec fn other_resistance(&self) -> int {
        self.other_resistance as int
    }

    /// The three constants are positive.
    pub open spec fn wf(&self) -> bool {
        &&& self.beta() > 0
        &&& self.resistance_at_t0() > 0
        &&& self.other_resistance() > 0
    }

    /// The thermistor with these constants, or `None` unless all three are
    /// positive.
    pub fn new(beta: u32, resistance_at_t0: u32, other_resistance: u32) -> (thermistor: Option<Self>)
        ensures
            thermistor is Some <==> beta > 0 && resistance_at_t0 > 0 && other_resistance > 0,
            thermistor matches Some(t) ==> {
                &&& t.wf()
                &&& t.beta() == beta
                &&& t.resistance_at_t0() == resistance_at_t0
                &&& t.other_resistance() == other_resistance
            },
    {
        if beta > 0 && resistance_at_t0 > 0 && other_resistance > 0 {
            Some(Thermistor { beta, resistance_at_t0, other_resistance })
        } else {
            None
        }
    }

    /// The beta coefficient, in kelvin.
    pub fn get_beta(&self) -> (beta: u32)
        ensures
            beta == self.beta(),
    {
        self.beta
    }

    /// The resistance at the reference temperature, in ohms.
    pub fn get_resistance_at_t0(&self) -> (resistance: u32)
        ensures
            resistance == self.resistance_at_t0(),
    {
        self.resistance_at_t0
    }

    /// The resistance of the fixed resistor of the divider, in ohms.
    pub fn get_other_resistance(&self) -> (resistance: u32)
        ensures
            resistance == self.other_resistance(),
    {
        self.other_resistance
    }

    /// The resistance of the thermistor, in thousandths of an ohm, when the
    /// share `ratio` of the supply voltage lies across it.
    ///
    /// At either end of the scale there is no finite, positive resistance
    /// whose logarithm the beta equation could take: those readings fail.
    pub fn resistance(&self, ratio: Percentage) -> (resistance: Result<u128, SensorReadFailure>)
        ensures
            ratio@ == 0 <==> resistance == Err::<u128, SensorReadFailure>(
                SensorReadFailure::Shorted,
            ),
            ratio@ == 100_000_000 <==> resistance == Err::<u128, SensorReadFailure>(
                SensorReadFailure::Open,
            ),
            resistance matches Ok(r) ==> r == divider_resistance(self.other_resistance(), ratio@),
    {
        let ratio: u32 = ratio.as_micropercent();
        if ratio == 0 {
            return Err(SensorReadFailure::Shorted);
        }
        if ratio == 100_000_000 {
            return Err(SensorReadFailure::Open);
        }
        let scaled: u128 = self.other_resistance as u128 * 1000;
        assert(scaled * ratio <= 0xffff_ffff * 1000 * 100_000_000) by (nonlinear_arith)
            requires
                scaled <= 0xffff_ffff * 1000,
                ratio <= 100_000_000,
        ;
        Ok(scaled * ratio as u128 / (100_000_000 - ratio) as u128)
    }
}

/// The larger the share of the supply voltage across the thermistor, the
/// larger its resistance.
pub proof fn lemma_resistance_grows_with_ratio(other_resistance: int, lower: int, higher: int)
    requires
        0 <= other_resistance,
        0 <= lower <= higher < 100_000_000,
    ensures
        divider_resistance(other_resistance, lower) <= divider_resistance(other_resistance, higher),
{
    let a = other_resistance * 1000 * lower;
    let b = other_resistance * 1000 * higher;
    let c = 100_000_000 - lower;
    let d = 100_000_000 - higher;
    assert(0 <= a <= b) by (nonlinear_arith)
        requires
            a == other_resistance * 1000 * lower,
            b == other_resistance * 1000 * higher,
            0 <= other_resistance,
            0 <= lower <= higher,
    ;
    vstd::arithmetic::div_mod::lemma_div_is_ordered(a, b, c);
    vstd::arithmetic::div_mod::lemma_div_is_ordered_by_denominator(b, d, c);
}

} // verus!
