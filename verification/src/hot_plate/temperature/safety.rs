//! The temperature safety supervisor.
//!
//! At every step of the control loop the supervisor holds the measured
//! temperature and the setpoint against three policies, each on its own, and
//! reports the set of those that are violated. It only reports: what
//! follows from a violation is up to the caller.

use crate::utils::math::saturating_sum;
use crate::utils::measurement::temperature::Temperature;
use vstd::prelude::*;

verus! {

/// A way in which the temperature of the plate can be unsafe.
#[derive(Clone, Copy, Debug, PartialEq, Eq, Structural, Hash)]
pub enum TemperatureError {
    /// The temperature is outside of the allowed range.
    OutOfRange,
    /// The temperature had reached the setpoint and has since stayed away
    /// from it for too long.
    FailedToKeepTemperature,
    /// The temperature is below the setpoint and has not risen as it should
    /// over a whole window of samples.
    FailedToRiseTemperature,
}

/// A set of [`TemperatureError`]s.
#[derive(Clone, Copy, Debug, PartialEq, Eq, Structural, Hash)]
pub struct TemperatureErrorSet {
    out_of_range: bool,
    failed_to_keep_temperature: bool,
    failed_to_rise_temperature: bool,
}

impl View for TemperatureErrorSet {
    type V = Set<TemperatureError>;

    closed spec fn view(&self) -> Set<TemperatureError> {
        Set::new(
            |error: TemperatureError|
                match error {
                    TemperatureError::OutOfRange => self.out_of_range,
                    TemperatureError::FailedToKeepTemperature => self.failed_to_keep_temperature,
                    TemperatureError::FailedToRiseTemperature => self.failed_to_rise_temperature,
                },
        )
    }
}

impl TemperatureErrorSet {
    /// The set without any error.
    pub fn empty() -> (errors: Self)
        ensures
            errors@ == Set::<TemperatureError>::empty(),
    {
        let errors = TemperatureErrorSet {
            out_of_range: false,
            failed_to_keep_temperature: false,
            failed_to_rise_temperature: false,
        };
        assert(errors@ =~= Set::<TemperatureError>::empty());
        errors
    }

    /// The set with `error` added.
    pub fn with(self, error: TemperatureError) -> (errors: Self)
        ensures
            errors@ == self@.insert(error),
    {
        let errors = match error {
            TemperatureError::OutOfRange => TemperatureErrorSet { out_of_range: true, ..self },
            TemperatureError::FailedToKeepTemperature => TemperatureErrorSet {
                failed_to_keep_temperature: true,
                ..self
            },
            TemperatureError::FailedToRiseTemperature => TemperatureErrorSet {
                failed_to_rise_temperature: true,
                ..self
            },
        };
        assert(errors@ =~= self@.insert(error));
        errors
    }

    /// Tells whether `error` is in the set.
    pub fn contains(&self, error: TemperatureError) -> (found: bool)
        ensures
            found == self@.contains(error),
    {
        match error {
            TemperatureError::OutOfRange => self.out_of_range,
            TemperatureError::FailedToKeepTemperature => self.failed_to_keep_temperature,
            TemperatureError::FailedToRiseTemperature => self.failed_to_rise_temperature,
        }
    }

    /// Tells whether the set holds no error.
    pub fn is_empty(&self) -> (empty: bool)
        ensures
            empty == (self@ == Set::<TemperatureError>::empty()),
    {
        let empty = !self.out_of_range && !self.failed_to_keep_temperature
            && !self.failed_to_rise_temperature;
        proof {
            if empty {
                assert(self@ =~= Set::<TemperatureError>::empty());
            } else {
                assert(self@.contains(TemperatureError::OutOfRange) || self@.contains(
                    TemperatureError::FailedToKeepTemperature,
                ) || self@.contains(TemperatureError::FailedToRiseTemperature));
            }
        }
        empty
    }

    /// Two sets with the same errors are the same set.
    pub proof fn lemma_same_errors_same_set(self, other: Self)
        requires
            self@ == other@,
        ensures
            self == other,
    {
        assert(self@.contains(TemperatureError::OutOfRange) == self.out_of_range);
        assert(other@.contains(TemperatureError::OutOfRange) == other.out_of_range);
        assert(self@.contains(TemperatureError::FailedToKeepTemperature)
            == self.failed_to_keep_temperature);
        assert(other@.contains(TemperatureError::FailedToKeepTemperature)
            == other.failed_to_keep_temperature);
        assert(self@.contains(TemperatureError::FailedToRiseTemperature)
            == self.failed_to_rise_temperature);
        assert(other@.contains(TemperatureError::FailedToRiseTemperature)
            == other.failed_to_rise_temperature);
        assert(self@.contains(TemperatureError::OutOfRange) == other@.contains(
            TemperatureError::OutOfRange,
        ));
        assert(self@.contains(TemperatureError::FailedToKeepTemperature) == other@.contains(
            TemperatureError::FailedToKeepTemperature,
        ));
        assert(self@.contains(TemperatureError::FailedToRiseTemperature) == other@.contains(
            TemperatureError::FailedToRiseTemperature,
        ));
    }
}

/// The range of temperatures that the plate is allowed to have, both ends
/// included.
#[derive(Clone, Copy, Debug, PartialEq, Eq, Structural, Hash)]
pub struct TemperatureRange {
    pub min: Temperature,
    pub max: Temperature,
}

/// How long one policy waits and how much it tolerates.
#[derive(Clone, Copy, Debug, PartialEq, Eq, Structural, Hash)]
pub struct TemperatureChangeConfig {
    /// The time over which the policy judges, in milliseconds.
    pub period_in_millis: u64,
    /// The distance from the setpoint within which the temperature counts as
    /// at the setpoint, in millikelvin.
    pub hysteresis_in_millikelvin: u32,
}

/// What the supervisor remembers from one step to the next.
pub struct SafetyMemory {
    /// The setpoint of the last step, if there was a step.
    pub last_target: Option<Temperature>,
    /// Whether the temperature has been at this setpoint.
    pub reached: bool,
    /// For how long the temperature has been away from the setpoint since it
    /// was last at it, in milliseconds.
    pub outside_millis: int,
    /// The samples of the window of the rise policy, oldest first.
    pub samples: Seq<Temperature>,
    /// The time since the newest sample was taken, in milliseconds.
    pub since_sample_millis: int,
}

/// The memory of a supervisor that has not seen any setpoint yet.
pub open spec fn blank_memory() -> SafetyMemory {
    SafetyMemory {
        last_target: None,
        reached: false,
        outside_millis: 0,
        samples: Seq::empty(),
        since_sample_millis: 0,
    }
}

/// The temperature is below or above the allowed range.
pub open spec fn is_out_of_range(range: TemperatureRange, current: Temperature) -> bool {
    current@ < range.min@ || current@ > range.max@
}

/// The temperature is at the setpoint: within the hysteresis of it.
pub open spec fn is_at_target(
    config: TemperatureChangeConfig,
    current: Temperature,
    target: Temperature,
) -> bool {
    -config.hysteresis_in_millikelvin <= current@ - target@ <= config.hysteresis_in_millikelvin
}

/// The plate is still heating up to the setpoint: the temperature is below
/// it by more than the hysteresis.
pub open spec fn is_rising_to_target(
    config: TemperatureChangeConfig,
    current: Temperature,
    target: Temperature,
) -> bool {
    current@ < target@ - config.hysteresis_in_millikelvin
}

/// The memory with which a step starts: what was remembered if the setpoint
/// is still the same, and nothing but the new setpoint if it has changed.
pub open spec fn memory_for(memory: SafetyMemory, target: Temperature) -> SafetyMemory {
    if memory.last_target == Some(target) {
        memory
    } else {
        SafetyMemory { last_target: Some(target), ..blank_memory() }
    }
}

/// The time between two samples of the rise policy, in milliseconds: the
/// period divided evenly among the samples of a window.
pub open spec fn sample_spacing(config: TemperatureChangeConfig, samples_count: int) -> int {
    (config.period_in_millis as int) / samples_count
}

/// The window of the rise policy after one more sample, which pushes the
/// oldest one out of a full window.
pub open spec fn window_with(samples: Seq<Temperature>, samples_count: int, current: Temperature) -> Seq<
    Temperature,
> {
    if samples.len() >= samples_count {
        samples.remove(0).push(current)
    } else {
        samples.push(current)
    }
}

/// What the supervisor remembers after a step.
///
/// Keeping the setpoint: once the temperature has been at the setpoint, the
/// time that it spends away from it adds up, and falls back to zero whenever
/// it is at the setpoint again.
///
/// Rising to the setpoint: while the plate is heating up, a first sample is
/// taken at once and a further one each time the spacing has passed since
/// the last; when the temperature is no longer below the setpoint, the
/// window is emptied.
pub open spec fn step(
    keep: TemperatureChangeConfig,
    rise: TemperatureChangeConfig,
    samples_count: int,
    memory: SafetyMemory,
    current: Temperature,
    target: Temperature,
    delta_millis: int,
) -> SafetyMemory {
    let start = memory_for(memory, target);
    let at_target = is_at_target(keep, current, target);
    let waited = saturating_sum(start.since_sample_millis, delta_millis);
    SafetyMemory {
        last_target: Some(target),
        reached: start.reached || at_target,
        outside_millis: if at_target || !start.reached {
            0
        } else {
            saturating_sum(start.outside_millis, delta_millis)
        },
        samples: if !is_rising_to_target(rise, current, target) {
            Seq::empty()
        } else if start.samples.len() == 0 {
            seq![current]
        } else if waited >= sample_spacing(rise, samples_count) {
            window_with(start.samples, samples_count, current)
        } else {
            start.samples
        },
        since_sample_millis: if !is_rising_to_target(rise, current, target) || start.samples.len()
            == 0 || waited >= sample_spacing(rise, samples_count) {
            0
        } else {
            waited
        },
    }
}

/// The temperature has been away from a setpoint that it had reached for
/// longer than the period.
pub open spec fn fails_to_keep(keep: TemperatureChangeConfig, memory: SafetyMemory) -> bool {
    memory.reached && memory.outside_millis > keep.period_in_millis
}

/// The window is full, and from its oldest sample to its newest the
/// temperature has risen by less than the hysteresis.
pub open spec fn fails_to_rise(
    rise: TemperatureChangeConfig,
    samples_count: int,
    memory: SafetyMemory,
) -> bool {
    &&& memory.samples.len() >= samples_count
    &&& memory.samples.len() > 0
    &&& memory.samples.last()@ - memory.samples.first()@ < rise.hysteresis_in_millikelvin
}

/// The set of the policies that are violated after a step: the allowed
/// range by the temperature as it is now, the two others by what the
/// supervisor remembers after the step.
pub open spec fn violations(
    allowed_temperature_range: TemperatureRange,
    keep: TemperatureChangeConfig,
    rise: TemperatureChangeConfig,
    samples_count: int,
    memory: SafetyMemory,
    current: Temperature,
) -> Set<TemperatureError> {
    Set::new(
        |error: TemperatureError|
            match error {
                TemperatureError::OutOfRange => is_out_of_range(allowed_temperature_range, current),
                TemperatureError::FailedToKeepTemperature => fails_to_keep(keep, memory),
                TemperatureError::FailedToRiseTemperature => fails_to_rise(
                    rise,
                    samples_count,
                    memory,
                ),
            },
    )
}

/// The supervisor of the temperature of the plate.
pub struct TemperatureSafety {
    allowed_temperature_range: TemperatureRange,
    keep_target_temperature_config: TemperatureChangeConfig,
    rise_to_target_temperature_config: TemperatureChangeConfig,
    rise_to_target_temperature_samples_count: usize,
    last_target: Option<Temperature>,
    reached: bool,
    outside_millis: u64,
    samples: Vec<Temperature>,
    since_sample_millis: u64,
}

impl View for TemperatureSafety {
    type V = SafetyMemory;

    /// What the supervisor remembers.
    closed spec fn view(&self) -> SafetyMemory {
        SafetyMemory {
            last_target: self.last_target,
            reached: self.reached,
            outside_millis: self.outside_millis as int,
            samples: self.samples@,
            since_sample_millis: self.since_sample_millis as int,
        }
    }
}

impl TemperatureSafety {
    /// The range that the temperature is allowed in.
    pub closed spec fn allowed_temperature_range(&self) -> TemperatureRange {
        self.allowed_temperature_range
    }

    /// The period and the hysteresis of keeping the setpoint.
    pub closed spec fn keep_target_temperature_config(&self) -> TemperatureChangeConfig {
        self.keep_target_temperature_config
    }

    /// The period and the hysteresis of rising to the setpoint.
    pub closed spec fn rise_to_target_temperature_config(&self) -> TemperatureChangeConfig {
        self.rise_to_target_temperature_config
    }

    /// The number of samples in a window of the rise policy.
    pub closed spec fn rise_to_target_temperature_samples_count(&self) -> int {
        self.rise_to_target_temperature_samples_count as int
    }

    /// The configuration is sound, and the window holds no more samples than
    /// it is configured for.
    pub closed spec fn wf(&self) -> bool {
        &&& valid_configuration(
            self.allowed_temperature_range,
            self.keep_target_temperature_config,
            self.rise_to_target_temperature_config,
            self.rise_to_target_temperature_samples_count as int,
        )
        &&& self.samples@.len() <= self.rise_to_target_temperature_samples_count
    }

    /// The supervisor with this configuration, which has not seen any
    /// setpoint yet.
    pub fn new(
        allowed_temperature_range: TemperatureRange,
        keep_target_temperature_config: TemperatureChangeConfig,
        rise_to_target_temperature_config: TemperatureChangeConfig,
        rise_to_target_temperature_samples_count: usize,
    ) -> (safety: Self)
        requires
            valid_configuration(
                allowed_temperature_range,
                keep_target_temperature_config,
                rise_to_target_temperature_config,
                rise_to_target_temperature_samples_count as int,
            ),
        ensures
            safety.wf(),
            safety@ == blank_memory(),
            safety.allowed_temperature_range() == allowed_temperature_range,
            safety.keep_target_temperature_config() == keep_target_temperature_config,
            safety.rise_to_target_temperature_config() == rise_to_target_temperature_config,
            safety.rise_to_target_temperature_samples_count()
                == rise_to_target_temperature_samples_count,
    {
        TemperatureSafety {
            allowed_temperature_range,
            keep_target_temperature_config,
            rise_to_target_temperature_config,
            rise_to_target_temperature_samples_count,
            last_target: None,
            reached: false,
            outside_millis: 0,
            samples: Vec::new(),
            since_sample_millis: 0,
        }
    }

    /// Holds the measured temperature `current` and the setpoint `target`
    /// against the three policies, `delta_millis` milliseconds after the
    /// step before, and returns the set of the policies that are violated.
    pub fn is_temperature_safe(
        &mut self,
        current: Temperature,
        target: Temperature,
        delta_millis: u64,
    ) -> (errors: TemperatureErrorSet)
        requires
            old(self).wf(),
        ensures
            final(self).wf(),
            final(self).allowed_temperature_range() == old(self).allowed_temperature_range(),
            final(self).keep_target_temperature_config() == old(
                self,
            ).keep_target_temperature_config(),
            final(self).rise_to_target_temperature_config() == old(
                self,
            ).rise_to_target_temperature_config(),
            final(self).rise_to_target_temperature_samples_count() == old(
                self,
            ).rise_to_target_temperature_samples_count(),
            final(self)@ == step(
                old(self).keep_target_temperature_config(),
                old(self).rise_to_target_temperature_config(),
                old(self).rise_to_target_temperature_samples_count(),
                old(self)@,
                current,
                target,
                delta_millis as int,
            ),
            errors@ == violations(
                old(self).allowed_temperature_range(),
                old(self).keep_target_temperature_config(),
                old(self).rise_to_target_temperature_config(),
                old(self).rise_to_target_temperature_samples_count(),
                final(self)@,
                current,
            ),
    {
        let keep = self.keep_target_temperature_config;
        let rise = self.rise_to_target_temperature_config;
        let count = self.rise_to_target_temperature_samples_count;
        let ghost start = memory_for(self@, target);

        let retargeted = match self.last_target {
            Some(last) => last.as_millikelvin() != target.as_millikelvin(),
            None => true,
        };
        proof {
            crate::utils::measurement::temperature::lemma_reading_determines_temperature(
                target,
                target,
            );
            if let Some(last) = self.last_target {
                crate::utils::measurement::temperature::lemma_reading_determines_temperature(
                    last,
                    target,
                );
            }
        }
        if retargeted {
            self.last_target = Some(target);
            self.reached = false;
            self.outside_millis = 0;
            self.samples.clear();
            self.since_sample_millis = 0;
        }
        assert(self@ == start) by {
            assert(self@.samples =~= start.samples);
        }

        let mut errors = TemperatureErrorSet::empty();

        let current_millikelvin = current.as_millikelvin();
        if current_millikelvin < self.allowed_temperature_range.min.as_millikelvin()
            || current_millikelvin > self.allowed_temperature_range.max.as_millikelvin() {
            errors = errors.with(TemperatureError::OutOfRange);
        }

        if current.abs_diff(target) <= keep.hysteresis_in_millikelvin {
            self.reached = true;
            self.outside_millis = 0;
        } else if self.reached {
            self.outside_millis = self.outside_millis.saturating_add(delta_millis);
        } else {
            self.outside_millis = 0;
        }
        if self.reached && self.outside_millis > keep.period_in_millis {
            errors = errors.with(TemperatureError::FailedToKeepTemperature);
        }

        let rising = current_millikelvin as u64 + (rise.hysteresis_in_millikelvin as u64)
            < target.as_millikelvin() as u64;
        if !rising {
            self.samples.clear();
            self.since_sample_millis = 0;
        } else if self.samples.len() == 0 {
            self.samples.push(current);
            self.since_sample_millis = 0;
        } else {
            let waited = self.since_sample_millis.saturating_add(delta_millis);
            if waited >= rise.period_in_millis / (count as u64) {
                if self.samples.len() >= count {
                    self.samples.remove(0);
                }
                self.samples.push(current);
                self.since_sample_millis = 0;
            } else {
                self.since_sample_millis = waited;
            }
        }
        let held = self.samples.len();
        if held >= count && held > 0 {
            let oldest = self.samples[0].as_millikelvin();
            let newest = self.samples[held - 1].as_millikelvin();
            if (newest as i64) - (oldest as i64) < rise.hysteresis_in_millikelvin as i64 {
                errors = errors.with(TemperatureError::FailedToRiseTemperature);
            }
        }
        proof {
            let stepped = step(
                old(self).keep_target_temperature_config(),
                old(self).rise_to_target_temperature_config(),
                old(self).rise_to_target_temperature_samples_count(),
                old(self)@,
                current,
                target,
                delta_millis as int,
            );
            assert(self@.samples =~= stepped.samples);
            assert(errors@ =~= violations(
                old(self).allowed_temperature_range(),
                old(self).keep_target_temperature_config(),
                old(self).rise_to_target_temperature_config(),
                old(self).rise_to_target_temperature_samples_count(),
                self@,
                current,
            ));
        }
        errors
    }
}

/// A temperature outside of the allowed range is reported at the very step
/// at which it is measured, and a temperature inside of it never is:
/// nothing that the supervisor remembers has a say.
pub proof fn lemma_out_of_range_is_immediate(
    allowed_temperature_range: TemperatureRange,
    keep: TemperatureChangeConfig,
    rise: TemperatureChangeConfig,
    samples_count: int,
    memory: SafetyMemory,
    current: Temperature,
)
    ensures
        violations(
            allowed_temperature_range,
            keep,
            rise,
            samples_count,
            memory,
            current,
        ).contains(TemperatureError::OutOfRange) <==> is_out_of_range(
            allowed_temperature_range,
            current,
        ),
{
}

/// A step with a new setpoint starts from nothing: what was remembered of
/// the setpoint before has no effect.
pub proof fn lemma_new_target_forgets(
    keep: TemperatureChangeConfig,
    rise: TemperatureChangeConfig,
    samples_count: int,
    memory: SafetyMemory,
    current: Temperature,
    target: Temperature,
    delta_millis: int,
)
    requires
        memory.last_target != Some(target),
    ensures
        step(keep, rise, samples_count, memory, current, target, delta_millis) == step(
            keep,
            rise,
            samples_count,
            blank_memory(),
            current,
            target,
            delta_millis,
        ),
{
}

/// Keeping the setpoint cannot fail before the temperature has been at the
/// setpoint.
pub proof fn lemma_keep_is_inert_until_reached(
    keep: TemperatureChangeConfig,
    rise: TemperatureChangeConfig,
    samples_count: int,
    memory: SafetyMemory,
    current: Temperature,
    target: Temperature,
    delta_millis: int,
)
    requires
        !memory_for(memory, target).reached,
        !is_at_target(keep, current, target),
    ensures
        !step(keep, rise, samples_count, memory, current, target, delta_millis).reached,
        !fails_to_keep(
            keep,
            step(keep, rise, samples_count, memory, current, target, delta_millis),
        ),
{
}

/// A temperature at the setpoint sets the time away from it back to zero,
/// so that keeping the setpoint does not fail at that step.
pub proof fn lemma_at_target_resets_keep(
    keep: TemperatureChangeConfig,
    rise: TemperatureChangeConfig,
    samples_count: int,
    memory: SafetyMemory,
    current: Temperature,
    target: Temperature,
    delta_millis: int,
)
    requires
        is_at_target(keep, current, target),
    ensures
        step(keep, rise, samples_count, memory, current, target, delta_millis).reached,
        step(keep, rise, samples_count, memory, current, target, delta_millis).outside_millis == 0,
        !fails_to_keep(
            keep,
            step(keep, rise, samples_count, memory, current, target, delta_millis),
        ),
{
}

/// A temperature that is not below the setpoint by more than the hysteresis
/// empties the window, so that rising to the setpoint does not fail at that
/// step.
pub proof fn lemma_not_rising_resets_rise(
    keep: TemperatureChangeConfig,
    rise: TemperatureChangeConfig,
    samples_count: int,
    memory: SafetyMemory,
    current: Temperature,
    target: Temperature,
    delta_millis: int,
)
    requires
        !is_rising_to_target(rise, current, target),
    ensures
        step(keep, rise, samples_count, memory, current, target, delta_millis).samples.len() == 0,
        !fails_to_rise(
            rise,
            samples_count,
            step(keep, rise, samples_count, memory, current, target, delta_millis),
        ),
{
}

/// The window never holds more samples than it is configured for.
pub proof fn lemma_window_is_bounded(
    keep: TemperatureChangeConfig,
    rise: TemperatureChangeConfig,
    samples_count: int,
    memory: SafetyMemory,
    current: Temperature,
    target: Temperature,
    delta_millis: int,
)
    requires
        samples_count > 0,
        memory.samples.len() <= samples_count,
    ensures
        step(keep, rise, samples_count, memory, current, target, delta_millis).samples.len()
            <= samples_count,
{
}

/// A full window of samples that are all the same fails to rise, whenever
/// any rise is asked for at all.
pub proof fn lemma_stalled_window_fails_to_rise(
    rise: TemperatureChangeConfig,
    samples_count: int,
    memory: SafetyMemory,
)
    requires
        samples_count > 0,
        memory.samples.len() >= samples_count,
        memory.samples.first() == memory.samples.last(),
        rise.hysteresis_in_millikelvin > 0,
    ensures
        fails_to_rise(rise, samples_count, memory),
{
}

/// What the supervisor remembers after a run of steps with one setpoint:
/// `readings` holds, for each step in turn, the temperature measured and the
/// time since the step before.
pub open spec fn run(
    keep: TemperatureChangeConfig,
    rise: TemperatureChangeConfig,
    samples_count: int,
    memory: SafetyMemory,
    readings: Seq<(Temperature, int)>,
    target: Temperature,
) -> SafetyMemory
    decreases readings.len(),
{
    if readings.len() == 0 {
        memory
    } else {
        step(
            keep,
            rise,
            samples_count,
            run(keep, rise, samples_count, memory, readings.drop_last(), target),
            readings.last().0,
            target,
            readings.last().1,
        )
    }
}

/// The time that a run of steps takes, in milliseconds.
pub open spec fn duration(readings: Seq<(Temperature, int)>) -> int
    decreases readings.len(),
{
    if readings.len() == 0 {
        0
    } else {
        duration(readings.drop_last()) + readings.last().1
    }
}

/// Once the temperature has been at the setpoint, time away from it adds
/// up: over a run of steps that are all away from the setpoint, the time
/// away grows by the time that the run takes. So a run that takes the time
/// away beyond the period ends with a failure to keep the setpoint, and a
/// run that does not, does not.
pub proof fn lemma_time_away_adds_up(
    keep: TemperatureChangeConfig,
    rise: TemperatureChangeConfig,
    samples_count: int,
    memory: SafetyMemory,
    readings: Seq<(Temperature, int)>,
    target: Temperature,
)
    requires
        memory.last_target == Some(target),
        memory.reached,
        0 <= memory.outside_millis <= u64::MAX,
        forall|i: int|
            0 <= i < readings.len() ==> 0 <= (#[trigger] readings[i]).1 && !is_at_target(
                keep,
                readings[i].0,
                target,
            ),
    ensures
        run(keep, rise, samples_count, memory, readings, target).last_target == Some(target),
        run(keep, rise, samples_count, memory, readings, target).reached,
        run(keep, rise, samples_count, memory, readings, target).outside_millis == saturating_sum(
            memory.outside_millis,
            duration(readings),
        ),
        duration(readings) >= 0,
        fails_to_keep(keep, run(keep, rise, samples_count, memory, readings, target))
            <==> saturating_sum(memory.outside_millis, duration(readings)) > keep.period_in_millis,
    decreases readings.len(),
{
    if readings.len() > 0 {
        let earlier = readings.drop_last();
        assert forall|i: int| 0 <= i < earlier.len() implies 0 <= (#[trigger] earlier[i]).1
            && !is_at_target(keep, earlier[i].0, target) by {
            assert(earlier[i] == readings[i]);
        }
        lemma_time_away_adds_up(keep, rise, samples_count, memory, earlier, target);
        assert(0 <= readings[readings.len() - 1].1);
    }
}

/// A configuration is sound when the allowed range holds a temperature at
/// least, both periods are longer than nothing, and a window holds a sample
/// at least.
pub open spec fn valid_configuration(
    allowed_temperature_range: TemperatureRange,
    keep_target_temperature_config: TemperatureChangeConfig,
    rise_to_target_temperature_config: TemperatureChangeConfig,
    rise_to_target_temperature_samples_count: int,
) -> bool {
    &&& allowed_temperature_range.min@ <= allowed_temperature_range.max@
    &&& keep_target_temperature_config.period_in_millis > 0
    &&& rise_to_target_temperature_config.period_in_millis > 0
    &&& rise_to_target_temperature_samples_count > 0
}

} // verus!
