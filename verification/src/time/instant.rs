use vstd::prelude::*;
use super::duration::{lemma_of_nanos, Duration};

verus! {

/// A reading of a monotonic clock, held as the time that has passed since the
/// clock's origin. Which moment the origin is stays with whoever reads the clock;
/// only differences between instants of one clock mean anything.
#[derive(Clone, Copy, Debug, PartialEq, Eq, PartialOrd, Ord, Hash, Structural)]
pub struct Instant {
    offset: Duration,
}

impl Instant {
    /// The time since the clock's origin.
    pub closed spec fn offset(self) -> Duration {
        self.offset
    }

    /// The time since the clock's origin in nanoseconds.
    pub open spec fn as_nanos(self) -> nat {
        self.offset().as_nanos()
    }

    /// The instant that lies `offset` after the clock's origin.
    pub closed spec fn from_origin_spec(offset: Duration) -> Instant {
        Instant { offset }
    }

    /// The instant `dur` after this one, where the clock can hold it.
    pub open spec fn checked_add_spec(self, dur: Duration) -> Option<Instant> {
        match self.offset().checked_add_spec(dur) {
            Some(offset) => Some(Instant::from_origin_spec(offset)),
            None => None,
        }
    }

    /// The instant that lies `offset` after the clock's origin.
    #[verifier::when_used_as_spec(from_origin_spec)]
    pub fn from_origin(offset: Duration) -> (t: Instant)
        ensures
            t == Instant::from_origin_spec(offset),
            t.offset() == offset,
    {
        Instant { offset }
    }

    /// The time that has passed since the clock's origin.
    pub fn since_origin(&self) -> (d: Duration)
        ensures
            d == self.offset(),
    {
        self.offset
    }

    /// Whether this instant is `deadline` or later.
    pub fn has_reached(&self, deadline: &Instant) -> (b: bool)
        ensures
            b == (deadline.as_nanos() <= self.as_nanos()),
    {
        deadline.offset.le(&self.offset)
    }

    /// The instant `dur` after this one, or `None` where the clock cannot hold it.
    #[verifier::when_used_as_spec(checked_add_spec)]
    pub fn checked_add(self, dur: Duration) -> (later: Option<Instant>)
        ensures
            later == self.checked_add_spec(dur),
            later is Some <==> self.as_nanos() + dur.as_nanos() < Duration::limit(),
            later matches Some(t) ==> t.as_nanos() == self.as_nanos() + dur.as_nanos(),
    {
        match self.offset.checked_add(dur) {
            Some(offset) => Some(Instant { offset }),
            None => None,
        }
    }

    /// The time from `earlier` to this instant, or no time at all where `earlier`
    /// is in fact the later one.
    pub fn duration_since(&self, earlier: &Instant) -> (d: Duration)
        ensures
            d.as_nanos() == if earlier.as_nanos() <= self.as_nanos() {
                self.as_nanos() - earlier.as_nanos()
            } else {
                0
            },
    {
        self.offset.saturating_sub(earlier.offset)
    }
}

/// What adding a duration to an instant gives, in nanoseconds.
pub proof fn lemma_instant_checked_add(t: Instant, dur: Duration)
    ensures
        t.checked_add_spec(dur) is Some <==> t.as_nanos() + dur.as_nanos() < Duration::limit(),
        t.checked_add_spec(dur) matches Some(later) ==> later.as_nanos() == t.as_nanos()
            + dur.as_nanos(),
{
    if t.as_nanos() + dur.as_nanos() < Duration::limit() {
        lemma_of_nanos(t.as_nanos() + dur.as_nanos());
    }
}

} // verus!
