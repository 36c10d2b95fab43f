//! The request-timeout stage of the outbound HTTP client: bounds how long
//! one request may stay outstanding. This backpressure control is
//! independent of the snapshot cache's locking.

use vstd::prelude::*;

verus! {

/// Builds the stage that abandons a request after a fixed wait.
#[derive(Clone, Copy, PartialEq, Eq, Structural, Debug)]
pub struct TimeoutLayer {
    timeout_millis: u64,
}

impl TimeoutLayer {
    /// A layer whose stages give up on a request after `timeout_millis`.
    pub fn new(timeout_millis: u64) -> (r: Self)
        ensures
            r.spec_timeout_millis() == timeout_millis,
    {
        TimeoutLayer { timeout_millis }
    }

    /// The wait this layer allows, in milliseconds.
    pub closed spec fn spec_timeout_millis(&self) -> u64 {
        self.timeout_millis
    }

    /// Makes the per-client stage.
    pub fn layer(&self) -> (r: Timeout)
        ensures
            r.spec_timeout_millis() == self.spec_timeout_millis(),
    {
        Timeout { timeout_millis: self.timeout_millis }
    }
}

/// The stage that races a request against a timer and abandons the
/// request when the timer wins.
#[derive(Clone, Copy, PartialEq, Eq, Structural, Debug)]
pub struct Timeout {
    timeout_millis: u64,
}

/// What one poll of a timed request resolves to.
#[derive(Clone, Copy, PartialEq, Eq, Structural, Debug)]
pub enum TimeoutPoll {
    /// Neither the request nor the timer is done; keep waiting.
    Pending,
    /// The request finished; its result is the outcome.
    Inner,
    /// The timer fired first; the request is abandoned as timed out.
    TimedOut,
}

impl Timeout {
    /// The wait this stage allows, in milliseconds.
    pub closed spec fn spec_timeout_millis(&self) -> u64 {
        self.timeout_millis
    }

    /// The wait this stage allows, in milliseconds.
    pub fn timeout_millis(&self) -> (r: u64)
        ensures
            r == self.spec_timeout_millis(),
    {
        self.timeout_millis
    }

    /// One poll of the race: a finished request always wins, even when the
    /// timer has fired too; only an unfinished request can time out.
    pub fn poll_step(&self, inner_done: bool, timer_fired: bool) -> (r: TimeoutPoll)
        ensures
            inner_done ==> r == TimeoutPoll::Inner,
            !inner_done && timer_fired ==> r == TimeoutPoll::TimedOut,
            !inner_done && !timer_fired ==> r == TimeoutPoll::Pending,
    {
        if inner_done {
            TimeoutPoll::Inner
        } else if timer_fired {
            TimeoutPoll::TimedOut
        } else {
            TimeoutPoll::Pending
        }
    }
}

/// The error of a request the timer beat.
#[derive(Clone, Copy, PartialEq, Eq, Structural, Debug)]
pub struct TimedOut {}

impl Default for TimedOut {
    fn default() -> (r: Self)
        ensures
            r == (TimedOut {  }),
    {
        TimedOut {  }
    }
}

impl TimedOut {
    /// A human-readable description of the error.
    pub fn message(&self) -> (r: &'static str)
        ensures
            r@ == "request timed out"@,
    {
        "request timed out"
    }
}

} // verus!
