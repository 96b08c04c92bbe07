use vstd::prelude::*;

verus! {

/// A countdown duration as the three numeric inputs deliver it: hours,
/// minutes and seconds, each already truncated to an unsigned integer and
/// clamped by its input widget to the range below.
pub struct TimerDuration {
    pub hours: u64,
    pub minutes: u64,
    pub seconds: u64,
}

impl TimerDuration {
    /// Each field lies within the range its input widget enforces.
    pub open spec fn wf(self) -> bool {
        self.hours <= 24 && self.minutes <= 60 && self.seconds <= 60
    }

    /// The combined duration in seconds.
    pub open spec fn total_spec(self) -> int {
        self.hours * 3600 + self.minutes * 60 + self.seconds
    }

    pub fn new(hours: u64, minutes: u64, seconds: u64) -> (r: TimerDuration)
        requires
            hours <= 24,
            minutes <= 60,
            seconds <= 60,
        ensures
            r == (TimerDuration { hours, minutes, seconds }),
            r.wf(),
    {
        TimerDuration { hours, minutes, seconds }
    }

    /// For every in-range input, the countdown length is exactly
    /// `hours * 3600 + minutes * 60 + seconds`.
    pub fn total_seconds(&self) -> (r: u64)
        requires
            self.wf(),
        ensures
            r == self.total_spec(),
    {
        self.hours * 3600 + self.minutes * 60 + self.seconds
    }
}

} // verus!
