//! The clock, with a record of what it showed.
use crate::time::Duration;
use vstd::prelude::*;

verus! {

/// A moment of the clock that `std` reads.
#[verifier::external_type_specification]
#[verifier::external_body]
pub struct ExInstant(std::time::Instant);

/// `Instant::now` reads the monotonic clock. Nothing is said of the moment it gives.
pub assume_specification[ std::time::Instant::now ]() -> (now: std::time::Instant);

/// The nanoseconds from `now` to `deadline`, as `Instant::saturating_duration_since` has them.
pub uninterp spec fn nanos_until(now: std::time::Instant, deadline: std::time::Instant) -> nat;

/// `Instant::saturating_duration_since`, in nanoseconds: the time from `now` to `deadline`, and
/// zero where `deadline` is not later than `now`. It depends on the two moments alone; what they
/// are, only the clock decides, so the span goes by a name.
#[verifier::external_body]
pub(crate) fn time_left(now: std::time::Instant, deadline: std::time::Instant) -> (left: Duration)
    ensures
        left.nanos == nanos_until(now, deadline),
{
    Duration { nanos: deadline.saturating_duration_since(now).as_nanos() }
}

/// A clock. Nothing but reading it adds to what it has shown.
pub struct Clock {
    shown: Ghost<Seq<std::time::Instant>>,
}

impl Clock {
    /// Every moment that was read from this clock, in order.
    pub closed spec fn shown(&self) -> Seq<std::time::Instant> {
        self.shown@
    }

    /// A clock that was not read yet.
    pub fn new() -> (clock: Clock)
        ensures
            clock.shown() == Seq::<std::time::Instant>::empty(),
    {
        Clock { shown: Ghost(Seq::empty()) }
    }

    /// Reads the clock.
    pub fn now(&mut self) -> (now: std::time::Instant)
        ensures
            final(self).shown() == old(self).shown().push(now),
    {
        let now = std::time::Instant::now();
        self.shown = Ghost(self.shown@.push(now));
        now
    }
}

} // verus!
