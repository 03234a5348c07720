//! Spans and moments of time, as plain nanosecond counts.
use vstd::prelude::*;

verus! {

/// Nanoseconds in a millisecond.
pub const NANOS_PER_MILLI: u128 = 1_000_000;

/// Nanoseconds in a second.
pub const NANOS_PER_SEC: u128 = 1_000_000_000;

/// A span of time.
#[derive(Clone, Copy, Debug, PartialEq, Eq, Structural)]
pub struct Duration {
    pub nanos: u128,
}

impl Duration {
    /// A span of whole seconds.
    pub fn from_secs(secs: u64) -> (span: Duration)
        ensures
            span.nanos == secs * NANOS_PER_SEC,
    {
        Duration { nanos: (secs as u128) * NANOS_PER_SEC }
    }

    /// A span of whole milliseconds.
    pub fn from_millis(millis: u64) -> (span: Duration)
        ensures
            span.nanos == millis * NANOS_PER_MILLI,
    {
        Duration { nanos: (millis as u128) * NANOS_PER_MILLI }
    }

    /// A span of whole nanoseconds.
    pub fn from_nanos(nanos: u128) -> (span: Duration)
        ensures
            span.nanos == nanos,
    {
        Duration { nanos }
    }

    /// The whole milliseconds in this span.
    pub fn as_millis(self) -> (millis: u128)
        ensures
            millis == self.nanos / NANOS_PER_MILLI,
    {
        self.nanos / NANOS_PER_MILLI
    }

    /// The shorter of two spans.
    pub fn min(self, other: Duration) -> (span: Duration)
        ensures
            span == shorter(self, other),
    {
        if self.nanos <= other.nanos {
            self
        } else {
            other
        }
    }
}

/// The shorter of two spans.
pub open spec fn shorter(a: Duration, b: Duration) -> Duration {
    if a.nanos <= b.nanos {
        a
    } else {
        b
    }
}

/// A moment on a monotonic clock, counted from the moment the clock was started.
#[derive(Clone, Copy, Debug, PartialEq, Eq, Structural)]
pub struct Timestamp {
    pub nanos: u128,
}

/// The moment `span` after `at`; the last moment the clock can show if that is earlier.
pub open spec fn deadline_after(at: Timestamp, span: Duration) -> Timestamp {
    if at.nanos + span.nanos <= u128::MAX {
        Timestamp { nanos: (at.nanos + span.nanos) as u128 }
    } else {
        Timestamp { nanos: u128::MAX }
    }
}

/// The time that passed from `earlier` to `later`; none if `earlier` is not earlier.
pub open spec fn elapsed_between(earlier: Timestamp, later: Timestamp) -> Duration {
    if earlier.nanos <= later.nanos {
        Duration { nanos: (later.nanos - earlier.nanos) as u128 }
    } else {
        Duration { nanos: 0 }
    }
}

impl Timestamp {
    /// The moment `span` after this one.
    pub fn after(self, span: Duration) -> (moment: Timestamp)
        ensures
            moment == deadline_after(self, span),
    {
        if span.nanos <= u128::MAX - self.nanos {
            Timestamp { nanos: self.nanos + span.nanos }
        } else {
            Timestamp { nanos: u128::MAX }
        }
    }

    /// Whether this moment is `deadline` or later.
    pub fn reached(self, deadline: Timestamp) -> (past: bool)
        ensures
            past == (self.nanos >= deadline.nanos),
    {
        self.nanos >= deadline.nanos
    }

    /// The time that passed from `earlier` to this moment.
    pub fn since(self, earlier: Timestamp) -> (span: Duration)
        ensures
            span == elapsed_between(earlier, self),
    {
        if earlier.nanos <= self.nanos {
            Duration { nanos: self.nanos - earlier.nanos }
        } else {
            Duration { nanos: 0 }
        }
    }
}

/// A moment `span` later is `span` away, and no moment is further away than the clock can show.
pub proof fn law_a_deadline_is_its_span_away(at: Timestamp, span: Duration)
    ensures
        at.nanos + span.nanos <= u128::MAX ==> deadline_after(at, span).nanos == at.nanos
            + span.nanos,
        at.nanos + span.nanos > u128::MAX ==> deadline_after(at, span).nanos == u128::MAX,
        at.nanos + span.nanos <= u128::MAX ==> elapsed_between(at, deadline_after(at, span))
            == span,
        elapsed_between(deadline_after(at, span), at).nanos == 0,
{
}

/// The shorter of two spans is one of them, and no longer than either.
pub proof fn law_the_shorter_span_is_the_shorter(a: Duration, b: Duration)
    ensures
        shorter(a, b) == a || shorter(a, b) == b,
        shorter(a, b).nanos <= a.nanos,
        shorter(a, b).nanos <= b.nanos,
{
}

/// A second is a thousand milliseconds, and a millisecond a million nanoseconds.
pub proof fn law_time_is_counted_in_nanoseconds()
    ensures
        NANOS_PER_MILLI == 1_000_000,
        NANOS_PER_SEC == 1_000 * NANOS_PER_MILLI,
{
}

} // verus!
