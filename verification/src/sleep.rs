use std::time::Duration;
use vstd::prelude::*;

verus! {

/// What a timed sleep asks of its executor next.
#[derive(Debug)]
pub enum SleepStep {
    /// Wait for this long, then resume.
    Wait(Duration),
    /// The time has been waited for: the sleep has succeeded.
    Done,
}

/// A timed sleep as mathematics sees it.
pub struct SleepState {
    /// The time to wait for.
    pub duration: Duration,
    /// Whether the wait has been handed out.
    pub waited: bool,
}

/// The computation that does nothing: it waits for a given time once, then succeeds. It is run
/// as any other computation is, so that an interrupt ends it too.
#[derive(Debug)]
pub struct SleepTask {
    duration: Duration,
    waited: bool,
}

impl View for SleepTask {
    type V = SleepState;

    closed spec fn view(&self) -> SleepState {
        SleepState { duration: self.duration, waited: self.waited }
    }
}

impl SleepTask {
    /// A sleep of `duration`, not yet started.
    pub fn new(duration: Duration) -> (task: SleepTask)
        ensures
            task@ == (SleepState { duration, waited: false }),
    {
        SleepTask { duration, waited: false }
    }

    /// Runs the sleep up to its next suspension, or to its end: the first step hands out the
    /// wait, for the time that was asked for, and every later one finds the sleep done.
    pub fn step(&mut self) -> (step: SleepStep)
        ensures
            final(self)@ == (SleepState { waited: true, ..old(self)@ }),
            step == if old(self)@.waited {
                SleepStep::Done
            } else {
                SleepStep::Wait(old(self)@.duration)
            },
    {
        if self.waited {
            SleepStep::Done
        } else {
            self.waited = true;
            SleepStep::Wait(self.duration)
        }
    }
}

} // verus!
