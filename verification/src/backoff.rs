//! The backoff scheduler: how long to wait before each further attempt.
//!
//! The scheduler knows nothing of the failure that leads to a retry; it only
//! hands out waits, each within the bounds of its plan.

use crate::trusted::backoff_delay;
use vstd::prelude::*;

verus! {

/// Nanoseconds in a second.
pub const NANOS_PER_SEC: u32 = 1_000_000_000;

/// A span of time: whole seconds and the nanoseconds beyond them.
#[derive(Clone, Copy, Debug, PartialEq, Eq, Structural)]
pub struct Delay {
    /// Whole seconds.
    pub secs: u64,
    /// Nanoseconds beyond the whole seconds.
    pub nanos: u32,
}

impl Delay {
    /// The nanoseconds stay below a second.
    pub open spec fn wf(self) -> bool {
        self.nanos < NANOS_PER_SEC
    }

    /// The span in nanoseconds.
    pub open spec fn as_nanos(self) -> nat {
        (self.secs * NANOS_PER_SEC + self.nanos) as nat
    }

    /// A span of `millis` milliseconds.
    pub fn from_millis(millis: u64) -> (d: Delay)
        ensures
            d == (Delay { secs: millis / 1000, nanos: ((millis % 1000) * 1_000_000) as u32 }),
            d.wf(),
            d.as_nanos() == millis * 1_000_000,
    {
        let rest: u32 = (millis % 1000) as u32;
        Delay { secs: millis / 1000, nanos: rest * 1_000_000 }
    }

    /// A span of `secs` seconds.
    pub fn from_secs(secs: u64) -> (d: Delay)
        ensures
            d == (Delay { secs, nanos: 0 }),
            d.wf(),
            d.as_nanos() == secs * NANOS_PER_SEC,
    {
        Delay { secs, nanos: 0 }
    }

    /// Whether this span is at most as long as `other`.
    pub fn at_most(&self, other: &Delay) -> (r: bool)
        requires
            self.wf(),
            other.wf(),
        ensures
            r == (self.as_nanos() <= other.as_nanos()),
    {
        self.secs < other.secs || (self.secs == other.secs && self.nanos <= other.nanos)
    }
}

/// A bounded schedule of waits: how many attempts a call may make, and the
/// shortest and the longest wait between two of them.
#[derive(Clone, Copy, Debug, PartialEq, Eq, Structural)]
pub struct BackoffPlan {
    /// Attempts that a call may make, the first one included.
    pub attempts: u32,
    /// The shortest wait.
    pub min: Delay,
    /// The longest wait.
    pub max: Delay,
}

impl BackoffPlan {
    /// At least one attempt, and bounds that are spans and in order.
    pub open spec fn wf(self) -> bool {
        &&& self.attempts >= 1
        &&& self.min.wf()
        &&& self.max.wf()
        &&& self.min.as_nanos() <= self.max.as_nanos()
    }

    /// Whether `delay` is a wait that this plan allows.
    pub open spec fn allows(self, delay: Delay) -> bool {
        &&& delay.wf()
        &&& self.min.as_nanos() <= delay.as_nanos() <= self.max.as_nanos()
    }

    /// A plan of `attempts` attempts with waits between `min` and `max`;
    /// `None` unless that is at least one attempt and the bounds are spans
    /// and in order.
    pub fn new(attempts: u32, min: Delay, max: Delay) -> (r: Option<BackoffPlan>)
        ensures
            r == if (BackoffPlan { attempts, min, max }).wf() {
                Some(BackoffPlan { attempts, min, max })
            } else {
                None
            },
    {
        if attempts >= 1 && min.nanos < NANOS_PER_SEC && max.nanos < NANOS_PER_SEC && min.at_most(
            &max,
        ) {
            Some(BackoffPlan { attempts, min, max })
        } else {
            None
        }
    }

    /// The plan that every call runs on: five attempts, waits between a
    /// tenth of a second and twenty seconds.
    pub open spec fn standard_plan() -> BackoffPlan {
        BackoffPlan {
            attempts: crate::RETRY_ATTEMPTS,
            min: Delay { secs: 0, nanos: 100_000_000 },
            max: Delay { secs: 20, nanos: 0 },
        }
    }

    /// The plan that every call runs on.
    pub fn standard() -> (plan: BackoffPlan)
        ensures
            plan == BackoffPlan::standard_plan(),
            plan.wf(),
    {
        BackoffPlan {
            attempts: crate::RETRY_ATTEMPTS,
            min: Delay::from_millis(100),
            max: Delay::from_secs(20),
        }
    }

    /// The wait that follows the failure of attempt number `attempt`, counted
    /// from zero: a span within the bounds of the plan for each attempt of
    /// the plan, `None` beyond them. The span is drawn with jitter, so two
    /// calls may answer differently.
    pub fn delay(&self, attempt: u32) -> (r: Option<Delay>)
        requires
            self.wf(),
        ensures
            attempt < self.attempts ==> r is Some && self.allows(r->0),
            attempt >= self.attempts ==> r is None,
    {
        if attempt < self.attempts {
            backoff_delay(self.attempts, self.min, self.max, attempt)
        } else {
            None
        }
    }
}

} // verus!
