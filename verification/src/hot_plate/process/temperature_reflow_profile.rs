//! Reflow profiles and their sampling into a table of setpoints.

use crate::hot_plate::screen::drawable::plot::Plot;
use crate::utils::math::{clamp, lerp, lerp_spec};
use crate::utils::measurement::temperature::Temperature;
use vstd::prelude::*;

verus! {

/// A time since the start of a process, in whole seconds.
pub type TimeInSeconds = u16;

/// The number of keyframes of the default profile.
pub const DEFAULT_PROFILE_POINTS: usize = 5;

/// A temperature curve over time, given by `N` keyframes.
///
/// Each keyframe is a temperature and the time at which the curve reaches
/// it. The curve starts at 0 °C at time zero and runs straight from one
/// keyframe to the next.
pub struct ReflowProfile<const N: usize> {
    pub temperature_points: [(Temperature, TimeInSeconds); N],
}

/// A sequence of keyframes is a profile when it holds at least one keyframe
/// and their times increase strictly, the first lying after time zero.
pub open spec fn well_formed(points: Seq<(Temperature, TimeInSeconds)>) -> bool {
    &&& points.len() >= 1
    &&& points[0].1 > 0
    &&& forall|j: int, k: int| 0 <= j < k < points.len() ==> points[j].1 < points[k].1
}

/// The time of keyframe `k` in seconds; keyframe -1 is the start of the
/// curve.
pub open spec fn time_of(points: Seq<(Temperature, TimeInSeconds)>, k: int) -> int {
    if k < 0 {
        0
    } else {
        points[k].1 as int
    }
}

/// The temperature of keyframe `k` in thousandths of a degree Celsius;
/// keyframe -1 is the start of the curve.
pub open spec fn level_of(points: Seq<(Temperature, TimeInSeconds)>, k: int) -> int {
    if k < 0 {
        0
    } else {
        points[k].0.millicelsius()
    }
}

/// The time of the last keyframe, in seconds.
pub open spec fn total_duration(points: Seq<(Temperature, TimeInSeconds)>) -> int {
    points.last().1 as int
}

/// The first keyframe from `from` on that the curve has reached at or after
/// the time `num / den` seconds, or the last keyframe when there is none.
pub open spec fn segment_from(
    points: Seq<(Temperature, TimeInSeconds)>,
    num: int,
    den: int,
    from: int,
) -> int
    decreases points.len() - from,
{
    if from + 1 >= points.len() || num <= time_of(points, from) * den {
        from
    } else {
        segment_from(points, num, den, from + 1)
    }
}

/// The keyframe that ends the segment of the curve in which the time
/// `num / den` seconds lies.
pub open spec fn segment_at(points: Seq<(Temperature, TimeInSeconds)>, num: int, den: int) -> int {
    segment_from(points, num, den, 0)
}

/// The temperature of the curve at the time `num / den` seconds, in
/// thousandths of a degree Celsius, rounded down: the point on the straight
/// line between the two keyframes that bracket that time.
pub open spec fn level_at(points: Seq<(Temperature, TimeInSeconds)>, num: int, den: int) -> int {
    let k = segment_at(points, num, den);
    lerp_spec(
        level_of(points, k - 1),
        level_of(points, k),
        num - time_of(points, k - 1) * den,
        (time_of(points, k) - time_of(points, k - 1)) * den,
    )
}

/// A temperature in whole degrees Celsius, as a table of setpoints holds it:
/// rounded down, and limited to what sixteen bits hold.
pub open spec fn whole_celsius(millicelsius: int) -> int {
    clamp(millicelsius / 1000, 0, 65_535)
}

/// The number of equal steps into which `samples` evenly spaced samples
/// divide the duration of a profile.
pub open spec fn sample_steps(samples: int) -> int {
    if samples > 1 {
        samples - 1
    } else {
        1
    }
}

/// Entry `index` of the table of `samples` setpoints of a profile, in whole
/// degrees Celsius. The samples are spaced evenly from time zero to the last
/// keyframe, both included.
pub open spec fn setpoint_sample(
    points: Seq<(Temperature, TimeInSeconds)>,
    index: int,
    samples: int,
) -> int {
    whole_celsius(level_at(points, index * total_duration(points), sample_steps(samples)))
}

/// In a profile, a keyframe lies later than every keyframe before it.
pub proof fn lemma_times_increase(points: Seq<(Temperature, TimeInSeconds)>, j: int, k: int)
    requires
        well_formed(points),
        -1 <= j < k < points.len(),
    ensures
        time_of(points, j) < time_of(points, k),
        time_of(points, k) <= total_duration(points),
{
    if j == -1 && k > 0 {
        assert(points[0].1 < points[k].1);
    }
    if k < points.len() - 1 {
        assert(points[k].1 < points[points.len() - 1].1);
    }
}

/// The segment found for a time within the profile brackets that time: the
/// curve reaches the keyframe at or after it, and the keyframe before
/// strictly earlier, unless the time is the start of the curve itself.
pub proof fn lemma_segment_brackets(
    points: Seq<(Temperature, TimeInSeconds)>,
    num: int,
    den: int,
    from: int,
)
    requires
        well_formed(points),
        0 < den,
        0 <= num <= total_duration(points) * den,
        0 <= from < points.len(),
        from > 0 ==> time_of(points, from - 1) * den < num,
    ensures
        from <= segment_from(points, num, den, from) < points.len(),
        num <= time_of(points, segment_from(points, num, den, from)) * den,
        segment_from(points, num, den, from) > 0 ==> time_of(
            points,
            segment_from(points, num, den, from) - 1,
        ) * den < num,
    decreases points.len() - from,
{
    if from + 1 >= points.len() || num <= time_of(points, from) * den {
    } else {
        lemma_segment_brackets(points, num, den, from + 1);
    }
}

/// The default profile: preheat to 150 °C in one minute, soak up to 180 °C
/// until the third minute, reflow up to 240 °C at the fourth, hold that for
/// fifteen seconds, and cool down to 0 °C by the sixth minute.
pub fn default_profile() -> (profile: ReflowProfile<DEFAULT_PROFILE_POINTS>)
    ensures
        profile.wf(),
        profile.temperature_points@.len() == 5,
        level_of(profile.temperature_points@, 0) == 150_000,
        level_of(profile.temperature_points@, 1) == 180_000,
        level_of(profile.temperature_points@, 2) == 240_000,
        level_of(profile.temperature_points@, 3) == 240_000,
        level_of(profile.temperature_points@, 4) == 0,
        time_of(profile.temperature_points@, 0) == 60,
        time_of(profile.temperature_points@, 1) == 180,
        time_of(profile.temperature_points@, 2) == 240,
        time_of(profile.temperature_points@, 3) == 255,
        time_of(profile.temperature_points@, 4) == 360,
{
    ReflowProfile {
        temperature_points: [
            (Temperature::from_celsius(150), 60),
            (Temperature::from_celsius(180), 180),
            (Temperature::from_celsius(240), 240),
            (Temperature::from_celsius(240), 255),
            (Temperature::from_celsius(0), 360),
        ],
    }
}

impl<const N: usize> ReflowProfile<N> {
    /// The keyframes hold a profile: see [`well_formed`].
    pub open spec fn wf(&self) -> bool {
        well_formed(self.temperature_points@)
    }

    /// Tells whether the keyframes hold a profile.
    pub fn is_valid(&self) -> (valid: bool)
        ensures
            valid == self.wf(),
    {
        if N == 0 {
            return false;
        }
        if self.temperature_points[0].1 == 0 {
            return false;
        }
        let mut k: usize = 1;
        while k < N
            invariant
                1 <= k <= N,
                self.temperature_points@.len() == N,
                forall|i: int, j: int|
                    0 <= i < j < k ==> self.temperature_points@[i].1 < self.temperature_points@[j].1,
            decreases N - k,
        {
            if self.temperature_points[k - 1].1 >= self.temperature_points[k].1 {
                return false;
            }
            assert forall|i: int, j: int| 0 <= i < j < k + 1 implies self.temperature_points@[i].1
                < self.temperature_points@[j].1 by {
                if j == k && i < k - 1 {
                    assert(self.temperature_points@[i].1 < self.temperature_points@[k - 1].1);
                }
            }
            k += 1;
        }
        true
    }

    /// The time of the last keyframe, in seconds.
    pub fn total_duration(&self) -> (total: TimeInSeconds)
        requires
            self.wf(),
        ensures
            total == total_duration(self.temperature_points@),
            total > 0,
    {
        proof {
            lemma_times_increase(self.temperature_points@, -1, N - 1);
        }
        self.temperature_points[N - 1].1
    }

    /// The keyframe that ends the segment in which the time `num / den`
    /// seconds lies.
    fn segment_index(&self, num: u128, den: u128) -> (k: usize)
        requires
            self.wf(),
            den <= u64::MAX,
        ensures
            k == segment_at(self.temperature_points@, num as int, den as int),
    {
        let mut k: usize = 0;
        loop
            invariant_except_break
                k < N,
                self.temperature_points@.len() == N,
                den <= u64::MAX,
                segment_at(self.temperature_points@, num as int, den as int) == segment_from(
                    self.temperature_points@,
                    num as int,
                    den as int,
                    k as int,
                ),
            ensures
                k == segment_at(self.temperature_points@, num as int, den as int),
            decreases N - k,
        {
            let time: u128 = self.temperature_points[k].1 as u128;
            assert(time * den <= 0xffff * 0xffff_ffff_ffff_ffff) by (nonlinear_arith)
                requires
                    time <= 0xffff,
                    den <= 0xffff_ffff_ffff_ffff,
            ;
            if k + 1 >= N || num <= time * den {
                break;
            }
            k += 1;
        }
        k
    }

    /// The temperature of the curve at the time `num / den` seconds, in whole
    /// degrees Celsius.
    pub fn celsius_at(&self, num: u128, den: u128) -> (celsius: u16)
        requires
            self.wf(),
            0 < den <= u64::MAX,
            num <= total_duration(self.temperature_points@) * den,
        ensures
            celsius == whole_celsius(level_at(self.temperature_points@, num as int, den as int)),
    {
        let ghost points = self.temperature_points@;
        let k = self.segment_index(num, den);
        proof {
            lemma_segment_brackets(points, num as int, den as int, 0);
            lemma_times_increase(points, k - 1, k as int);
        }
        let (before, reached): (i64, u16) = if k == 0 {
            (0, 0)
        } else {
            (self.temperature_points[k - 1].0.as_millicelsius(), self.temperature_points[k - 1].1)
        };
        let after: i64 = self.temperature_points[k].0.as_millicelsius();
        let length: u128 = (self.temperature_points[k].1 - reached) as u128;
        assert(length * den <= 0xffff * 0xffff_ffff_ffff_ffff) by (nonlinear_arith)
            requires
                length <= 0xffff,
                den <= 0xffff_ffff_ffff_ffff,
        ;
        assert(reached * den <= 0xffff * 0xffff_ffff_ffff_ffff) by (nonlinear_arith)
            requires
                reached <= 0xffff,
                den <= 0xffff_ffff_ffff_ffff,
        ;
        let whole: u128 = length * den;
        let part: u128 = num - reached as u128 * den;
        proof {
            self.temperature_points@[k as int].0.lemma_view_range();
            if k > 0 {
                self.temperature_points@[k - 1].0.lemma_view_range();
            }
            assert(part <= whole && whole > 0) by (nonlinear_arith)
                requires
                    whole == length * den,
                    part == num - reached * den,
                    num <= (reached + length) * den,
                    length > 0,
                    den > 0,
            ;
            assert((after - before) * whole <= u128::MAX && (before - after) * whole <= u128::MAX)
                by (nonlinear_arith)
                requires
                    -0x1_0000_0000 <= after - before <= 0x1_0000_0000,
                    0 <= whole <= 0xffff * 0xffff_ffff_ffff_ffff,
            ;
        }
        let level: i64 = lerp(before, after, part, whole);
        if level < 0 {
            0
        } else if level / 1000 > 65_535 {
            65_535
        } else {
            (level / 1000) as u16
        }
    }

    /// Samples the curve into a plot of `P` columns: column `i` holds the
    /// temperature of the curve, in whole degrees Celsius, at the `i`-th of
    /// `P` evenly spaced times from zero to the last keyframe, both included.
    pub fn to_plot<const P: usize>(&self, thickness: u16) -> (plot: Plot<P>)
        requires
            self.wf(),
        ensures
            plot.thickness == thickness,
            forall|i: int|
                0 <= i < P ==> plot.points@[i] == #[trigger] setpoint_sample(
                    self.temperature_points@,
                    i,
                    P as int,
                ),
    {
        let ghost keyframes = self.temperature_points@;
        let mut points: [u16; P] = [0u16; P];
        let total: u128 = self.total_duration() as u128;
        let steps: u128 = if P > 1 {
            (P - 1) as u128
        } else {
            1
        };
        let mut i: usize = 0;
        while i < P
            invariant
                i <= P,
                self.wf(),
                keyframes == self.temperature_points@,
                total == total_duration(keyframes),
                steps == sample_steps(P as int),
                forall|j: int|
                    0 <= j < i ==> points@[j] == #[trigger] setpoint_sample(keyframes, j, P as int),
            decreases P - i,
        {
            assert(i * total <= total * steps && i * total <= 0xffff_ffff_ffff_ffff * 0xffff)
                by (nonlinear_arith)
                requires
                    i <= steps,
                    i <= 0xffff_ffff_ffff_ffff,
                    0 <= total <= 0xffff,
            ;
            let celsius = self.celsius_at(i as u128 * total, steps);
            points[i] = celsius;
            i += 1;
        }
        Plot { points, thickness }
    }
}

} // verus!
