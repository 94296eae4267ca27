//! The reflow process: a temperature profile followed over time.

use crate::hot_plate::screen::drawable::plot::Plot;
use crate::utils::math::{lerp_spec, map_spec, saturating_sum};
use crate::utils::measurement::temperature::Temperature;
use temperature_reflow_profile::{
    default_profile, level_at, level_of, lemma_segment_brackets, lemma_times_increase,
    sample_steps, segment_at, setpoint_sample, time_of, total_duration, well_formed,
    whole_celsius, ReflowProfile, TimeInSeconds, DEFAULT_PROFILE_POINTS,
};
use vstd::prelude::*;

pub mod temperature_reflow_profile;

verus! {

/// The process that follows the default profile, with a table of 200
/// setpoints.
pub type DefaultReflowProcess = ReflowProcess<DEFAULT_PROFILE_POINTS, 200>;

/// A reflow process in progress: a profile of `N` keyframes, the table of
/// `PLOT_N` setpoints sampled from it once, and the time elapsed so far.
///
/// The process ends when the elapsed time passes the last keyframe. From
/// then on it stays ended: only a new process starts again.
pub struct ReflowProcess<const N: usize, const PLOT_N: usize> {
    temperature_profile: ReflowProfile<N>,
    plot: Plot<PLOT_N>,
    current_time: u64,
}

/// The elapsed time after `delta_millis` more milliseconds, which stops at
/// the largest time that can be counted.
pub open spec fn elapsed_after(elapsed_millis: int, delta_millis: int) -> int {
    saturating_sum(elapsed_millis, delta_millis)
}

/// The entry of a table of `samples` setpoints that stands for the elapsed
/// time: the whole seconds elapsed, rescaled from the duration of the
/// profile to the indices of the table.
pub open spec fn table_index(elapsed_millis: int, total_seconds: int, samples: int) -> int {
    map_spec(elapsed_millis / 1000, (0, total_seconds), (0, samples - 1))
}

/// The setpoint of a process at an elapsed time, in thousandths of a degree
/// Celsius, or `None` when the time has passed the last keyframe.
pub open spec fn setpoint_at(
    points: Seq<(Temperature, TimeInSeconds)>,
    samples: int,
    elapsed_millis: int,
) -> Option<int> {
    let total = total_duration(points);
    if elapsed_millis <= total * 1000 {
        Some(1000 * setpoint_sample(points, table_index(elapsed_millis, total, samples), samples))
    } else {
        None
    }
}

/// Going all the way from one level to another arrives at the second, and
/// going none of the way stays at the first.
pub proof fn lemma_lerp_ends(start: int, end: int, whole: int)
    requires
        0 < whole,
    ensures
        lerp_spec(start, end, 0, whole) == start,
        lerp_spec(start, end, whole, whole) == end,
{
    assert(((end - start) * 0) / whole == 0) by (nonlinear_arith)
        requires
            0 < whole,
    ;
    assert(((end - start) * whole) / whole == end - start) by (nonlinear_arith)
        requires
            0 < whole,
    ;
}

/// The curve is one line per segment, and the lines meet at the keyframes:
/// at a time that lies between two consecutive keyframes, ends included, the
/// curve is at the point of the line between those two.
pub proof fn lemma_level_in_segment(
    points: Seq<(Temperature, TimeInSeconds)>,
    num: int,
    den: int,
    k: int,
)
    requires
        well_formed(points),
        0 < den,
        0 <= k < points.len(),
        time_of(points, k - 1) * den <= num <= time_of(points, k) * den,
    ensures
        level_at(points, num, den) == lerp_spec(
            level_of(points, k - 1),
            level_of(points, k),
            num - time_of(points, k - 1) * den,
            (time_of(points, k) - time_of(points, k - 1)) * den,
        ),
{
    let s = segment_at(points, num, den);
    lemma_times_increase(points, k - 1, k);
    assert(0 <= num <= total_duration(points) * den) by (nonlinear_arith)
        requires
            0 <= time_of(points, k - 1),
            time_of(points, k - 1) * den <= num <= time_of(points, k) * den,
            time_of(points, k) <= total_duration(points),
            0 < den,
    ;
    lemma_segment_brackets(points, num, den, 0);
    if s < k {
        if s < k - 1 {
            lemma_times_increase(points, s, k - 1);
        }
        assert(time_of(points, s) == time_of(points, k - 1) && num == time_of(points, s) * den)
            by (nonlinear_arith)
            requires
                time_of(points, s) <= time_of(points, k - 1),
                time_of(points, k - 1) * den <= num <= time_of(points, s) * den,
                0 < den,
        ;
        assert(s == k - 1);
        lemma_times_increase(points, s - 1, s);
        let before = time_of(points, s - 1);
        let length = time_of(points, s) - before;
        assert(num - before * den == length * den && length * den > 0) by (nonlinear_arith)
            requires
                num == (before + length) * den,
                length > 0,
                den > 0,
        ;
        lemma_lerp_ends(level_of(points, s - 1), level_of(points, s), length * den);
        let next = time_of(points, k) - time_of(points, k - 1);
        assert(next * den > 0) by (nonlinear_arith)
            requires
                next > 0,
                den > 0,
        ;
        lemma_lerp_ends(level_of(points, k - 1), level_of(points, k), next * den);
    } else if s > k {
        if s - 1 > k {
            lemma_times_increase(points, k, s - 1);
        }
        assert(false) by (nonlinear_arith)
            requires
                time_of(points, k) <= time_of(points, s - 1),
                time_of(points, s - 1) * den < num <= time_of(points, k) * den,
                0 < den,
        ;
    }
}

/// A process has a setpoint exactly as long as its elapsed time has not
/// passed the last keyframe.
pub proof fn lemma_setpoint_until_end(
    points: Seq<(Temperature, TimeInSeconds)>,
    samples: int,
    elapsed_millis: int,
)
    ensures
        setpoint_at(points, samples, elapsed_millis) is Some <==> elapsed_millis <= total_duration(
            points,
        ) * 1000,
{
}

/// A process that has ended stays ended, however much time is added.
pub proof fn lemma_end_is_final(
    points: Seq<(Temperature, TimeInSeconds)>,
    samples: int,
    elapsed_millis: int,
    delta_millis: int,
)
    requires
        0 <= elapsed_millis <= u64::MAX,
        0 <= delta_millis,
        setpoint_at(points, samples, elapsed_millis) is None,
    ensures
        setpoint_at(points, samples, elapsed_after(elapsed_millis, delta_millis)) is None,
{
}

/// At time zero the setpoint is 0 °C, the start of every curve.
pub proof fn lemma_starts_at_zero_celsius(points: Seq<(Temperature, TimeInSeconds)>, samples: int)
    requires
        well_formed(points),
        samples >= 1,
    ensures
        setpoint_at(points, samples, 0) == Some(0int),
{
    let total = total_duration(points);
    let steps = sample_steps(samples);
    lemma_times_increase(points, -1, 0);
    assert(table_index(0, total, samples) == 0) by (nonlinear_arith)
        requires
            table_index(0, total, samples) == 0 + ((0 - 0) * (samples - 1 - 0)) / (total - 0),
            total > 0,
    ;
    assert(0 * total == 0 && 0 <= time_of(points, 0) * steps) by (nonlinear_arith)
        requires
            0 < time_of(points, 0),
            0 < steps,
    ;
    lemma_level_in_segment(points, 0, steps, 0);
    assert(time_of(points, 0) * steps > 0) by (nonlinear_arith)
        requires
            0 < time_of(points, 0),
            0 < steps,
    ;
    lemma_lerp_ends(0, level_of(points, 0), time_of(points, 0) * steps);
}

/// At the time of the last keyframe the setpoint is the temperature of the
/// last keyframe, in the whole degrees that the table holds, when the table
/// has two samples or more.
pub proof fn lemma_ends_at_last_keyframe(points: Seq<(Temperature, TimeInSeconds)>, samples: int)
    requires
        well_formed(points),
        samples >= 2,
    ensures
        setpoint_at(points, samples, total_duration(points) * 1000) == Some(
            1000 * whole_celsius(level_of(points, points.len() - 1)),
        ),
{
    let total = total_duration(points);
    let steps = samples - 1;
    let last = points.len() - 1;
    lemma_times_increase(points, last - 1, last);
    assert((total * 1000) / 1000 == total) by (nonlinear_arith);
    assert(table_index(total * 1000, total, samples) == steps) by (nonlinear_arith)
        requires
            table_index(total * 1000, total, samples) == 0 + ((total - 0) * (steps - 0)) / (total
                - 0),
            total > 0,
    ;
    let length = total - time_of(points, last - 1);
    assert(time_of(points, last - 1) * steps <= steps * total && steps * total - time_of(
        points,
        last - 1,
    ) * steps == length * steps && length * steps > 0 && steps * total == total * steps)
        by (nonlinear_arith)
        requires
            length == total - time_of(points, last - 1),
            length > 0,
            steps > 0,
    ;
    lemma_level_in_segment(points, steps * total, steps, last);
    lemma_lerp_ends(level_of(points, last - 1), level_of(points, last), length * steps);
}

/// Where two consecutive keyframes share a temperature, every sample taken
/// between them, ends included, holds that temperature: a flat segment of
/// the profile is flat in the table, from its first sample to its last.
pub proof fn lemma_flat_segment_is_sampled_flat(
    points: Seq<(Temperature, TimeInSeconds)>,
    k: int,
    index: int,
    samples: int,
)
    requires
        well_formed(points),
        0 <= k < points.len(),
        level_of(points, k - 1) == level_of(points, k),
        time_of(points, k - 1) * sample_steps(samples) <= index * total_duration(points)
            <= time_of(points, k) * sample_steps(samples),
    ensures
        setpoint_sample(points, index, samples) == whole_celsius(level_of(points, k)),
{
    let steps = sample_steps(samples);
    let num = index * total_duration(points);
    lemma_level_in_segment(points, num, steps, k);
    let part = num - time_of(points, k - 1) * steps;
    let whole = (time_of(points, k) - time_of(points, k - 1)) * steps;
    lemma_times_increase(points, k - 1, k);
    assert((0 * part) / whole == 0) by (nonlinear_arith)
        requires
            whole == (time_of(points, k) - time_of(points, k - 1)) * steps,
            time_of(points, k) - time_of(points, k - 1) > 0,
            steps > 0,
    ;
}

/// Where two consecutive keyframes share a temperature, the first and the
/// last sample taken between them are equal, as are any two of them.
pub proof fn lemma_flat_segment_ends_are_equal(
    points: Seq<(Temperature, TimeInSeconds)>,
    k: int,
    first: int,
    last: int,
    samples: int,
)
    requires
        well_formed(points),
        0 <= k < points.len(),
        level_of(points, k - 1) == level_of(points, k),
        time_of(points, k - 1) * sample_steps(samples) <= first * total_duration(points)
            <= time_of(points, k) * sample_steps(samples),
        time_of(points, k - 1) * sample_steps(samples) <= last * total_duration(points)
            <= time_of(points, k) * sample_steps(samples),
    ensures
        setpoint_sample(points, first, samples) == setpoint_sample(points, last, samples),
{
    lemma_flat_segment_is_sampled_flat(points, k, first, samples);
    lemma_flat_segment_is_sampled_flat(points, k, last, samples);
}

impl<const N: usize, const PLOT_N: usize> ReflowProcess<N, PLOT_N> {
    /// The keyframes of the profile that the process follows.
    pub closed spec fn keyframes(&self) -> Seq<(Temperature, TimeInSeconds)> {
        self.temperature_profile.temperature_points@
    }

    /// The time elapsed since the start of the process, in milliseconds.
    pub closed spec fn elapsed_millis(&self) -> int {
        self.current_time as int
    }

    /// The table of setpoints, in whole degrees Celsius.
    pub closed spec fn table(&self) -> Seq<u16> {
        self.plot.points@
    }

    /// The process follows a profile, and its table holds the samples of
    /// that profile.
    pub open spec fn wf(&self) -> bool {
        &&& PLOT_N >= 1
        &&& well_formed(self.keyframes())
        &&& self.table().len() == PLOT_N
        &&& forall|i: int|
            0 <= i < PLOT_N ==> self.table()[i] == #[trigger] setpoint_sample(
                self.keyframes(),
                i,
                PLOT_N as int,
            )
    }

    #[verifier::type_invariant]
    spec fn always_wf(self) -> bool {
        self.wf()
    }

    /// Starts a process that follows `temperature_profile`, at time zero.
    pub fn start(temperature_profile: ReflowProfile<N>) -> (process: Self)
        requires
            temperature_profile.wf(),
            PLOT_N >= 1,
        ensures
            process.wf(),
            process.keyframes() == temperature_profile.temperature_points@,
            process.elapsed_millis() == 0,
    {
        let plot = temperature_profile.to_plot(1);
        Self { temperature_profile, current_time: 0, plot }
    }

    /// Starts a process that follows the default profile.
    pub fn start_default() -> (process: DefaultReflowProcess)
        ensures
            process.wf(),
            process.elapsed_millis() == 0,
            process.keyframes().len() == 5,
            level_of(process.keyframes(), 0) == 150_000,
            level_of(process.keyframes(), 1) == 180_000,
            level_of(process.keyframes(), 2) == 240_000,
            level_of(process.keyframes(), 3) == 240_000,
            level_of(process.keyframes(), 4) == 0,
            time_of(process.keyframes(), 0) == 60,
            time_of(process.keyframes(), 1) == 180,
            time_of(process.keyframes(), 2) == 240,
            time_of(process.keyframes(), 3) == 255,
            time_of(process.keyframes(), 4) == 360,
    {
        DefaultReflowProcess::start(default_profile())
    }

    /// The time elapsed since the start of the process, in milliseconds.
    pub fn get_elapsed_millis(&self) -> (elapsed: u64)
        ensures
            elapsed == self.elapsed_millis(),
    {
        self.current_time
    }

    /// The table of setpoints that was sampled from the profile.
    pub fn get_plot(&self) -> (plot: &Plot<PLOT_N>)
        ensures
            plot.points@ == self.table(),
    {
        &self.plot
    }

    /// Advances the process by `delta_millis` milliseconds and returns the
    /// setpoint for the time then elapsed, or `None` when the process has
    /// ended.
    pub fn tick(&mut self, delta_millis: u64) -> (target: Option<Temperature>)
        ensures
            final(self).wf(),
            final(self).keyframes() == old(self).keyframes(),
            final(self).elapsed_millis() == elapsed_after(
                old(self).elapsed_millis(),
                delta_millis as int,
            ),
            target is Some <==> final(self).elapsed_millis() <= total_duration(
                old(self).keyframes(),
            ) * 1000,
            match target {
                Some(temperature) => Some(temperature.millicelsius()),
                None => None,
            } == setpoint_at(
                old(self).keyframes(),
                PLOT_N as int,
                final(self).elapsed_millis(),
            ),
    {
        proof {
            use_type_invariant(&*self);
        }
        self.current_time = self.current_time.saturating_add(delta_millis);
        let total: u64 = self.temperature_profile.total_duration() as u64;
        if self.current_time > total * 1000 {
            return None;
        }
        let seconds: u64 = self.current_time / 1000;
        let index: u128 = crate::utils::math::map(seconds, (0, total), (0, (PLOT_N - 1) as u64));
        proof {
            crate::utils::math::lemma_map_within(
                seconds as int,
                (0, total as int),
                (0, PLOT_N - 1),
            );
        }
        let celsius: u16 = self.plot.points[index as usize];
        Some(Temperature::from_celsius(celsius))
    }
}

} // verus!
