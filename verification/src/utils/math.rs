//! Bounded ratios and linear rescaling over integers.

use vstd::prelude::*;

verus! {

/// A ratio between 0 % and 100 %, stored in millionths of a percent.
///
/// It is the unit of every duty cycle and of every proportional sensor
/// reading. A value outside of the range cannot be built: each constructor
/// refuses it or clamps it, as its name says.
#[derive(Clone, Copy, Debug, PartialEq, Eq, Structural, PartialOrd, Ord, Hash)]
pub struct Percentage {
    micropercent: u32,
}

impl View for Percentage {
    type V = int;

    /// The ratio in millionths of a percent.
    closed spec fn view(&self) -> int {
        self.micropercent as int
    }
}

impl Percentage {
    /// 100 % in millionths of a percent.
    pub const FULL_IN_MICROPERCENT: u32 = 100_000_000;

    /// The ratio lies within 0 % and 100 %. Every ratio that a program holds
    /// does.
    #[verifier::type_invariant]
    pub open spec fn in_range(self) -> bool {
        0 <= self@ <= 100_000_000
    }

    /// 0 %.
    pub fn zero() -> (percentage: Self)
        ensures
            percentage@ == 0,
    {
        Percentage { micropercent: 0 }
    }

    /// 100 %.
    pub fn full() -> (percentage: Self)
        ensures
            percentage@ == 100_000_000,
    {
        Percentage { micropercent: 100_000_000 }
    }

    /// The ratio of `micropercent` millionths of a percent, or `None` when
    /// that is more than 100 %.
    pub fn from_micropercent(micropercent: u32) -> (percentage: Option<Self>)
        ensures
            percentage is Some <==> micropercent <= 100_000_000,
            percentage matches Some(p) ==> p@ == micropercent,
    {
        if micropercent <= 100_000_000 {
            Some(Percentage { micropercent })
        } else {
            None
        }
    }

    /// The ratio of `percent` whole percent, or `None` when that is more
    /// than 100.
    pub fn from_0_to_100(percent: u32) -> (percentage: Option<Self>)
        ensures
            percentage is Some <==> percent <= 100,
            percentage matches Some(p) ==> p@ == percent * 1_000_000,
    {
        if percent <= 100 {
            Some(Percentage { micropercent: percent * 1_000_000 })
        } else {
            None
        }
    }

    /// The ratio of `part` to `whole`, rounded down to the stored unit, or
    /// `None` when `whole` is zero or `part` is more than `whole`.
    pub fn from_ratio(part: u32, whole: u32) -> (percentage: Option<Self>)
        ensures
            percentage is Some <==> 0 < whole && part <= whole,
            percentage matches Some(p) ==> p@ == (part * 100_000_000) / (whole as int),
    {
        if whole == 0 || part > whole {
            return None;
        }
        let scaled: u64 = part as u64 * 100_000_000;
        let micropercent: u64 = scaled / whole as u64;
        assert(micropercent <= 100_000_000) by (nonlinear_arith)
            requires
                micropercent == (part * 100_000_000) / (whole as int),
                0 < whole,
                part <= whole,
        {
            assert(part * 100_000_000 <= whole * 100_000_000);
            assert((whole * 100_000_000) / (whole as int) == 100_000_000);
            assert((part * 100_000_000) / (whole as int) <= (whole * 100_000_000) / (whole as int));
        }
        Some(Percentage { micropercent: micropercent as u32 })
    }

    /// The ratio nearest to `micropercent` millionths of a percent: the value
    /// itself inside of the range, 0 % below it and 100 % above it.
    pub fn clamped(micropercent: i64) -> (percentage: Self)
        ensures
            percentage@ == clamp(micropercent as int, 0, 100_000_000),
            0 <= percentage@ <= 100_000_000,
    {
        if micropercent < 0 {
            Percentage { micropercent: 0 }
        } else if micropercent > 100_000_000 {
            Percentage { micropercent: 100_000_000 }
        } else {
            Percentage { micropercent: micropercent as u32 }
        }
    }

    /// The ratio in millionths of a percent.
    pub fn as_micropercent(&self) -> (micropercent: u32)
        ensures
            micropercent == self@,
            micropercent <= 100_000_000,
    {
        proof {
            use_type_invariant(self);
        }
        self.micropercent
    }

    /// This share of `whole`, rounded to the nearest integer, halves upwards:
    /// what a pulse-width timer counts to for this duty cycle when its period
    /// is `whole` counts.
    pub fn of(&self, whole: u32) -> (share: u32)
        ensures
            share == (self@ * whole + 50_000_000) / 100_000_000,
            share <= whole,
    {
        proof {
            use_type_invariant(self);
        }
        assert(self.micropercent * whole <= 100_000_000 * whole) by (nonlinear_arith)
            requires
                self.micropercent <= 100_000_000,
        ;
        let product: u64 = self.micropercent as u64 * whole as u64;
        let share: u64 = (product + 50_000_000) / 100_000_000;
        assert(share <= whole) by (nonlinear_arith)
            requires
                share == (product + 50_000_000) / 100_000_000,
                product <= 100_000_000 * whole,
        ;
        share as u32
    }
}

/// `value` limited to the range from `low` to `high`.
pub open spec fn clamp(value: int, low: int, high: int) -> int {
    if value < low {
        low
    } else if value > high {
        high
    } else {
        value
    }
}

/// The sum of two counts, which stops at the largest count that sixty-four
/// bits hold.
pub open spec fn saturating_sum(a: int, b: int) -> int {
    if a + b > u64::MAX {
        u64::MAX as int
    } else {
        a + b
    }
}

/// Where `value` falls in the output range when the input range is laid
/// over it linearly, rounded down.
pub open spec fn map_spec(value: int, input: (int, int), output: (int, int)) -> int {
    output.0 + ((value - input.0) * (output.1 - output.0)) / (input.1 - input.0)
}

/// Rescales `value` from the range `input` to the range `output`, both given
/// as (start, end): `input.0` goes to `output.0`, `input.1` to `output.1`,
/// and what lies between or beyond follows linearly, rounded down.
pub fn map(value: u64, input: (u64, u64), output: (u64, u64)) -> (mapped: u128)
    requires
        input.0 < input.1,
        input.0 <= value,
        output.0 <= output.1,
    ensures
        mapped == map_spec(
            value as int,
            (input.0 as int, input.1 as int),
            (output.0 as int, output.1 as int),
        ),
{
    let offset: u128 = (value - input.0) as u128;
    let span: u128 = (output.1 - output.0) as u128;
    let width: u128 = (input.1 - input.0) as u128;
    assert(offset * span <= 0xffff_ffff_ffff_ffff * 0xffff_ffff_ffff_ffff) by (nonlinear_arith)
        requires
            offset <= 0xffff_ffff_ffff_ffff,
            span <= 0xffff_ffff_ffff_ffff,
    ;
    let scaled: u128 = offset * span / width;
    assert(scaled <= offset * span) by (nonlinear_arith)
        requires
            scaled == (offset * span) / (width as int),
            width >= 1,
            offset * span >= 0,
    ;
    output.0 as u128 + scaled
}

/// The point that lies `part / whole` of the way from `start` to `end`,
/// rounded down.
pub open spec fn lerp_spec(start: int, end: int, part: int, whole: int) -> int {
    start + ((end - start) * part) / whole
}

/// Dividing the negation of a natural number rounds away from zero: it is
/// the negated quotient, less one when the division leaves a remainder.
pub proof fn lemma_div_of_negation(x: int, d: int)
    requires
        0 <= x,
        0 < d,
    ensures
        (-x) / d == if x % d == 0 {
            -(x / d)
        } else {
            -(x / d) - 1
        },
{
    let q = x / d;
    let r = x % d;
    vstd::arithmetic::div_mod::lemma_fundamental_div_mod(x, d);
    vstd::arithmetic::div_mod::lemma_mod_pos_bound(x, d);
    if r == 0 {
        assert(-x == (-q) * d + 0) by (nonlinear_arith)
            requires
                x == d * q + r,
                r == 0,
        ;
        vstd::arithmetic::div_mod::lemma_fundamental_div_mod_converse(-x, d, -q, 0);
    } else {
        assert(-x == (-q - 1) * d + (d - r)) by (nonlinear_arith)
            requires
                x == d * q + r,
        ;
        vstd::arithmetic::div_mod::lemma_fundamental_div_mod_converse(-x, d, -q - 1, d - r);
    }
}

/// Interpolates linearly between `start` and `end`: the point that lies
/// `part / whole` of the way from the first to the second, rounded down.
pub fn lerp(start: i64, end: i64, part: u128, whole: u128) -> (value: i64)
    requires
        0 < whole,
        part <= whole,
        (end - start) * whole <= u128::MAX,
        (start - end) * whole <= u128::MAX,
    ensures
        value == lerp_spec(start as int, end as int, part as int, whole as int),
        start <= end ==> start <= value <= end,
        end <= start ==> end <= value <= start,
{
    if start <= end {
        let rise: u128 = (end as i128 - start as i128) as u128;
        assert(rise * part <= rise * whole) by (nonlinear_arith)
            requires
                part <= whole,
                0 <= rise,
        ;
        let gained: u128 = rise * part / whole;
        assert(gained <= rise) by (nonlinear_arith)
            requires
                gained == (rise * part) / (whole as int),
                0 <= rise * part <= rise * whole,
                0 < whole,
        {
            assert((rise * whole) / (whole as int) == rise);
            assert((rise * part) / (whole as int) <= (rise * whole) / (whole as int));
        }
        (start as i128 + gained as i128) as i64
    } else {
        let fall: u128 = (start as i128 - end as i128) as u128;
        assert(fall * part <= fall * whole) by (nonlinear_arith)
            requires
                part <= whole,
                0 <= fall,
        ;
        let product: u128 = fall * part;
        let quotient: u128 = product / whole;
        assert(quotient <= fall) by (nonlinear_arith)
            requires
                quotient == product / whole,
                0 <= product <= fall * whole,
                0 < whole,
        {
            assert((fall * whole) / (whole as int) == fall);
            assert(product / whole <= (fall * whole) / (whole as int));
        }
        let lost: u128 = if product % whole == 0 {
            quotient
        } else {
            quotient + 1
        };
        proof {
            lemma_div_of_negation(product as int, whole as int);
            assert((end - start) * part == -(product as int)) by (nonlinear_arith)
                requires
                    product == (start - end) * part,
            ;
            assert(lost <= fall) by (nonlinear_arith)
                requires
                    quotient == product / whole,
                    lost == if product % whole == 0 {
                        quotient as int
                    } else {
                        quotient + 1
                    },
                    0 <= product <= fall * whole,
                    0 < whole,
            {
                assert((fall * whole) / (whole as int) == fall);
                assert((fall * whole) % (whole as int) == 0);
                if product < fall * whole {
                    assert(product / whole < fall);
                }
            }
        }
        (start as i128 - lost as i128) as i64
    }
}

/// The ends of the input range go to the ends of the output range, and a
/// value inside of the input range stays inside of the output range.
pub proof fn lemma_map_within(value: int, input: (int, int), output: (int, int))
    requires
        input.0 < input.1,
        input.0 <= value <= input.1,
        output.0 <= output.1,
    ensures
        map_spec(input.0, input, output) == output.0,
        map_spec(input.1, input, output) == output.1,
        output.0 <= map_spec(value, input, output) <= output.1,
{
    let width = input.1 - input.0;
    let span = output.1 - output.0;
    assert((0 * span) / width == 0) by (nonlinear_arith)
        requires
            width > 0,
    ;
    assert((width * span) / width == span) by (nonlinear_arith)
        requires
            width > 0,
    ;
    let offset = value - input.0;
    assert(0 <= (offset * span) / width <= span) by (nonlinear_arith)
        requires
            width > 0,
            0 <= offset <= width,
            span >= 0,
    {
        assert(0 <= offset * span <= width * span);
        assert((width * span) / width == span);
    }
}

} // verus!
