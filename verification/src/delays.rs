//! Pacing helpers built on differences of the kernel's wrapping tick counter.
use crate::base::{word_modulus, FreeRtosTickType};
use crate::units::Duration;
use vstd::prelude::*;

verus! {

/// Ticks that have passed from `baseline` to `now`, counted around the
/// counter's wrap.
pub open spec fn elapsed_ticks(baseline: FreeRtosTickType, now: FreeRtosTickType) -> int {
    (now - baseline) % word_modulus()
}

/// The counter value reached `ticks` after `baseline`, counted around the
/// counter's wrap.
pub open spec fn wake_target(baseline: FreeRtosTickType, ticks: FreeRtosTickType) -> int {
    (baseline + ticks) % word_modulus()
}

/// Whether a period of `period` ticks that began at `baseline` is over at `now`.
pub open spec fn period_elapsed(
    baseline: FreeRtosTickType,
    period: FreeRtosTickType,
    now: FreeRtosTickType,
) -> bool {
    elapsed_ticks(baseline, now) >= period
}

/// The sum of a sequence of tick counts.
pub open spec fn total_ticks(delays: Seq<FreeRtosTickType>) -> int
    decreases delays.len(),
{
    if delays.len() == 0 {
        0
    } else {
        total_ticks(delays.drop_last()) + delays.last()
    }
}

/// The baseline that a self-correcting delay holds after it was started at
/// `start` and asked for each of `delays` in turn.
pub open spec fn baseline_after(start: FreeRtosTickType, delays: Seq<FreeRtosTickType>) -> int
    decreases delays.len(),
{
    if delays.len() == 0 {
        start as int
    } else {
        wake_target(baseline_after(start, delays.drop_last()) as FreeRtosTickType, delays.last())
    }
}

/// A delay that wakes the task at fixed distances from one another, however
/// long the work between two wakes took.
pub struct TaskDelay {
    last_wake_time: FreeRtosTickType,
}

impl TaskDelay {
    /// The tick at which the current period began.
    pub closed spec fn baseline(&self) -> FreeRtosTickType {
        self.last_wake_time
    }

    /// A delay whose first period begins at `now`, the kernel's current tick.
    pub fn new(now: FreeRtosTickType) -> (d: TaskDelay)
        ensures
            d.baseline() == now,
    {
        TaskDelay { last_wake_time: now }
    }

    /// The tick at which the current period began.
    pub fn last_wake_time(&self) -> (t: FreeRtosTickType)
        ensures
            t == self.baseline(),
    {
        self.last_wake_time
    }

    /// Ends the current period `delay` after it began and starts the next one
    /// there. Returns the tick until which the kernel is to block the task.
    /// The target is counted from the previous target, never from the time of
    /// the call.
    pub fn delay_until(&mut self, delay: Duration) -> (target: FreeRtosTickType)
        ensures
            target == wake_target(old(self).baseline(), delay.to_ticks()),
            final(self).baseline() == target,
    {
        let target: FreeRtosTickType = self.last_wake_time.wrapping_add(delay.to_ticks());
        self.last_wake_time = target;
        target
    }
}

/// A timer that a polling loop asks whether its period has passed.
pub struct TaskDelayPeriodic {
    last_wake_time: FreeRtosTickType,
    period: Duration,
}

impl TaskDelayPeriodic {
    /// The tick at which the timer was last reset.
    pub closed spec fn baseline(&self) -> FreeRtosTickType {
        self.last_wake_time
    }

    /// The configured period.
    pub closed spec fn spec_period(&self) -> Duration {
        self.period
    }

    /// A timer of the given period that starts at `now`, the kernel's current
    /// tick.
    pub fn new(period: Duration, now: FreeRtosTickType) -> (t: TaskDelayPeriodic)
        ensures
            t.baseline() == now,
            t.spec_period() == period,
    {
        TaskDelayPeriodic { last_wake_time: now, period }
    }

    /// The tick at which the timer was last reset.
    pub fn last_wake_time(&self) -> (t: FreeRtosTickType)
        ensures
            t == self.baseline(),
    {
        self.last_wake_time
    }

    /// The configured period.
    #[verifier::when_used_as_spec(spec_period)]
    pub fn period(&self) -> (p: Duration)
        ensures
            p == self.spec_period(),
    {
        self.period
    }

    /// Has the period passed at `now`, the kernel's current tick? If it has,
    /// the timer restarts at `now`; if not, nothing changes.
    pub fn should_run(&mut self, now: FreeRtosTickType) -> (run: bool)
        ensures
            run == period_elapsed(old(self).baseline(), old(self).period().to_ticks(), now),
            final(self).period() == old(self).period(),
            final(self).baseline() == if run { now } else { old(self).baseline() },
    {
        if now.wrapping_sub(self.last_wake_time) < self.period.to_ticks() {
            false
        } else {
            self.last_wake_time = now;
            true
        }
    }

    /// Sets a new period and leaves the baseline where it is.
    pub fn set_period(&mut self, period: Duration)
        ensures
            final(self).period() == period,
            final(self).baseline() == old(self).baseline(),
    {
        self.period = period;
    }

    /// Restarts the timer at `now`, the kernel's current tick.
    pub fn reset(&mut self, now: FreeRtosTickType)
        ensures
            final(self).baseline() == now,
            final(self).period() == old(self).period(),
    {
        self.last_wake_time = now;
    }
}

/// The elapsed time between two tick values is a tick count, whichever of
/// the two is the larger number.
pub proof fn lemma_elapsed_in_range(baseline: FreeRtosTickType, now: FreeRtosTickType)
    ensures
        0 <= elapsed_ticks(baseline, now) < word_modulus(),
        baseline <= now ==> elapsed_ticks(baseline, now) == now - baseline,
        baseline > now ==> elapsed_ticks(baseline, now) == now - baseline + word_modulus(),
{
}

/// When the counter has advanced by `k` ticks from `baseline`, the elapsed
/// time is `k`, also where the counter wrapped on the way.
pub proof fn lemma_elapsed_across_wrap(baseline: FreeRtosTickType, k: FreeRtosTickType)
    ensures
        elapsed_ticks(baseline, wake_target(baseline, k) as FreeRtosTickType) == k,
{
}

/// A period that began at `baseline` is over exactly when the counter has
/// advanced by at least the period: not one tick earlier, and always from
/// there on.
pub proof fn lemma_period_elapsed_iff(
    baseline: FreeRtosTickType,
    period: FreeRtosTickType,
    k: FreeRtosTickType,
)
    ensures
        period_elapsed(baseline, period, wake_target(baseline, k) as FreeRtosTickType) <==> k
            >= period,
{
}

/// After any run of delays the baseline is the start plus the sum of the
/// delays asked for, around the counter's wrap: no time spent between the
/// calls enters it, so the wakes do not drift.
pub proof fn lemma_delay_until_no_drift(start: FreeRtosTickType, delays: Seq<FreeRtosTickType>)
    ensures
        baseline_after(start, delays) == (start + total_ticks(delays)) % word_modulus(),
        0 <= baseline_after(start, delays) < word_modulus(),
    decreases delays.len(),
{
    if delays.len() > 0 {
        lemma_delay_until_no_drift(start, delays.drop_last());
    }
}

} // verus!
