//! Durations measured in kernel ticks.
use crate::base::FreeRtosTickType;
use vstd::prelude::*;

verus! {

/// The tick count that the kernel reads as "block without a deadline".
pub const MAX_WAIT_TICKS: FreeRtosTickType = 0xffff_ffff;

/// A span of time as a number of kernel ticks.
#[derive(Debug, Clone, Copy, PartialEq, Eq, Structural)]
pub struct Duration {
    ticks: FreeRtosTickType,
}

impl Duration {
    /// The number of ticks that this duration stands for.
    pub closed spec fn spec_to_ticks(&self) -> FreeRtosTickType {
        self.ticks
    }

    /// Whether this duration is the "wait forever" sentinel.
    pub open spec fn spec_is_infinite(&self) -> bool {
        self.spec_to_ticks() == MAX_WAIT_TICKS
    }

    /// A duration of exactly `ticks` kernel ticks.
    pub fn ticks(ticks: FreeRtosTickType) -> (d: Duration)
        ensures
            d.spec_to_ticks() == ticks,
    {
        Duration { ticks }
    }

    /// The empty duration: a wait of this length never suspends.
    pub fn zero() -> (d: Duration)
        ensures
            d.spec_to_ticks() == 0,
    {
        Duration { ticks: 0 }
    }

    /// The duration that never runs out.
    pub fn infinite() -> (d: Duration)
        ensures
            d.spec_to_ticks() == MAX_WAIT_TICKS,
            d.spec_is_infinite(),
    {
        Duration { ticks: MAX_WAIT_TICKS }
    }

    /// The tick count handed to the kernel for this duration.
    #[verifier::when_used_as_spec(spec_to_ticks)]
    pub fn to_ticks(&self) -> (t: FreeRtosTickType)
        ensures
            t == self.spec_to_ticks(),
    {
        self.ticks
    }

    /// Whether this duration is the "wait forever" sentinel.
    #[verifier::when_used_as_spec(spec_is_infinite)]
    pub fn is_infinite(&self) -> (b: bool)
        ensures
            b == self.spec_is_infinite(),
    {
        self.ticks == MAX_WAIT_TICKS
    }
}

/// Two durations of the same tick count are the same duration.
pub proof fn lemma_duration_by_ticks(a: Duration, b: Duration)
    requires
        a.to_ticks() == b.to_ticks(),
    ensures
        a == b,
{
}

} // verus!
