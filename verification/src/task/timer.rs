use vstd::prelude::*;
use crate::poll::Poll;
use crate::time::instant::lemma_instant_checked_add;
use crate::time::{Duration, Instant};

verus! {

/// A one-shot deadline on the clock that can be armed again.
///
/// An armed timer fires at the first poll whose clock reading has reached the
/// deadline, reports the deadline, and is disarmed by that. A disarmed timer never
/// fires. The timer does not read the clock itself: each operation that depends on
/// the time takes the current reading as `now`.
#[derive(Clone, Copy, Debug, PartialEq, Eq, Structural)]
pub struct Timer {
    /// The deadline, or `None` while the timer is disarmed.
    pub when: Option<Instant>,
}

impl Timer {
    /// Whether a poll at `now` finds this timer fired.
    pub open spec fn fires_at(self, now: Instant) -> bool {
        self.when matches Some(deadline) && deadline.as_nanos() <= now.as_nanos()
    }

    /// The timer armed for `dur` after `now`. Where the clock cannot hold that
    /// deadline the timer is disarmed.
    pub open spec fn after_spec(now: Instant, dur: Duration) -> Timer {
        Timer { when: now.checked_add_spec(dur) }
    }

    /// What one poll at `now` leaves of the timer and what it reports.
    pub open spec fn poll_spec(self, now: Instant) -> (Timer, Poll<Instant>) {
        if self.fires_at(now) {
            (Timer { when: None }, Poll::Ready(self.when->0))
        } else {
            (self, Poll::Pending)
        }
    }

    /// A timer that never fires.
    pub fn never() -> (t: Timer)
        ensures
            t.when is None,
    {
        Timer { when: None }
    }

    /// A timer armed for `dur` after `now`.
    #[verifier::when_used_as_spec(after_spec)]
    pub fn after(now: Instant, dur: Duration) -> (t: Timer)
        ensures
            t == Timer::after_spec(now, dur),
    {
        Timer { when: now.checked_add(dur) }
    }

    /// A timer armed for the instant `deadline`.
    pub fn at(deadline: Instant) -> (t: Timer)
        ensures
            t.when == Some(deadline),
    {
        Timer { when: Some(deadline) }
    }

    /// Arms the timer for `dur` after `now`, whatever it was armed for before.
    pub fn set_after(&mut self, now: Instant, dur: Duration)
        ensures
            *final(self) == Timer::after_spec(now, dur),
    {
        self.when = now.checked_add(dur);
    }

    /// Arms the timer for the instant `deadline`, whatever it was armed for before.
    pub fn set_at(&mut self, deadline: Instant)
        ensures
            final(self).when == Some(deadline),
    {
        self.when = Some(deadline);
    }

    /// Whether the timer is armed.
    pub fn will_fire(&self) -> (b: bool)
        ensures
            b == (self.when is Some),
    {
        self.when.is_some()
    }

    /// Polls the timer at the clock reading `now`.
    pub fn poll_fired(&mut self, now: Instant) -> (fired: Poll<Instant>)
        ensures
            (*final(self), fired) == old(self).poll_spec(now),
    {
        match self.when {
            Some(deadline) => {
                if now.has_reached(&deadline) {
                    self.when = None;
                    Poll::Ready(deadline)
                } else {
                    Poll::Pending
                }
            },
            None => Poll::Pending,
        }
    }
}

/// A timer armed for `dur` after `start` fires at no poll that comes before
/// `start` plus `dur`, and at each poll from then on, where the clock can hold
/// that deadline.
pub proof fn lemma_timer_fires_no_earlier(start: Instant, dur: Duration, now: Instant)
    ensures
        Timer::after_spec(start, dur).fires_at(now) ==> start.as_nanos() + dur.as_nanos()
            <= now.as_nanos(),
        start.as_nanos() + dur.as_nanos() <= now.as_nanos() && start.as_nanos() + dur.as_nanos()
            < Duration::limit() ==> Timer::after_spec(start, dur).fires_at(now),
{
    lemma_instant_checked_add(start, dur);
}

} // verus!
