//! Messages exchanged between the interval timer task and the render loop.

use std::time::Duration;
use vstd::prelude::*;

verus! {

/// Sent by the timer task to the render loop: a capture is due now.
#[derive(Debug, Clone, Copy, PartialEq, Eq)]
pub enum TimerMsg {
    CaptureImage,
}

/// Sent by the render loop to the timer task: run with the given period, or
/// stop when the period is absent.
#[derive(Debug, Clone, Copy, PartialEq, Eq)]
pub enum SetTimerMsg {
    Interval(Option<Duration>),
}

/// The duration of `secs` whole seconds.
pub uninterp spec fn whole_seconds(secs: u64) -> Duration;

/// `Duration::from_secs` returns the duration of that many whole seconds:
/// the same duration for the same number, whenever it is called.
pub assume_specification[ Duration::from_secs ](secs: u64) -> (period: Duration)
    ensures
        period == whole_seconds(secs),
;

impl SetTimerMsg {
    /// The period that the command asks for; `None` asks for the timer to stop.
    pub open spec fn period(self) -> Option<Duration> {
        match self {
            SetTimerMsg::Interval(d) => d,
        }
    }

    /// The period that the command asks for.
    pub fn duration(&self) -> (d: Option<Duration>)
        ensures
            d == self.period(),
    {
        match self {
            SetTimerMsg::Interval(d) => *d,
        }
    }
}

} // verus!
