//! Repeated attempts to reach an agent server.
use vstd::prelude::*;

verus! {

/// How often a server is asked before it is given up.
pub const RECONNECT_ATTEMPTS: u8 = 3;

/// The pause before an attempt, in milliseconds: none before the first.
pub open spec fn pause_before(attempt: int) -> int {
    if attempt <= 0 {
        0
    } else if attempt == 1 {
        500
    } else {
        1000
    }
}

/// What is to be done after an attempt.
#[derive(Debug, PartialEq, Eq)]
pub enum ReconnectStep {
    /// Try again after a pause.
    TryAgain { pause_millis: u64 },
    GiveUp { error: String },
}

/// Attempts to reach a server: how many have failed.
#[derive(Debug, PartialEq, Eq)]
pub struct Reconnect {
    failed: u8,
}

impl Reconnect {
    /// The number of attempts that failed.
    pub closed spec fn failed(&self) -> int {
        self.failed as int
    }

    /// There is an attempt left.
    pub open spec fn is_open(&self) -> bool {
        0 <= self.failed() < RECONNECT_ATTEMPTS
    }

    /// Before the first attempt.
    pub fn new() -> (r: Self)
        ensures
            r.is_open(),
            r.failed() == 0,
    {
        Reconnect { failed: 0 }
    }

    /// An attempt failed: says when the next one is due, or gives up with the last error.
    pub fn attempt_failed(&mut self, error: String) -> (r: ReconnectStep)
        requires
            old(self).is_open(),
        ensures
            final(self).failed() == old(self).failed() + 1,
            match r {
                ReconnectStep::TryAgain { pause_millis } => final(self).is_open() && pause_millis
                    == pause_before(final(self).failed()),
                ReconnectStep::GiveUp { error: last } => !final(self).is_open() && last@ == error@,
            },
    {
        self.failed = self.failed + 1;
        if self.failed < RECONNECT_ATTEMPTS {
            ReconnectStep::TryAgain {
                pause_millis: if self.failed == 1 {
                    500
                } else {
                    1000
                },
            }
        } else {
            ReconnectStep::GiveUp { error }
        }
    }
}

} // verus!
