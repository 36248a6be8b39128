//! Timers that are polled once a frame.
//!
//! The clock itself belongs to the engine. The rules only decide, from
//! whether a timer has just fired, what is to be done with it.

use vstd::prelude::*;

verus! {

/// What to do with a timer that is polled once a frame.
#[derive(Clone, Copy, PartialEq, Eq, Structural, Debug)]
pub enum TimerStep {
    /// It has just fired: what it guards was done; reset it.
    Fire,
    /// It has not: let it run on by the frame's time.
    Tick,
}

impl TimerStep {
    /// The step for a timer that has or has not just fired.
    pub open spec fn of(timer_finished: bool) -> TimerStep {
        if timer_finished {
            TimerStep::Fire
        } else {
            TimerStep::Tick
        }
    }

    /// The step for a timer that has or has not just fired.
    pub fn poll(timer_finished: bool) -> (step: TimerStep)
        ensures
            step == Self::of(timer_finished),
    {
        if timer_finished {
            TimerStep::Fire
        } else {
            TimerStep::Tick
        }
    }
}

} // verus!
