use vstd::prelude::*;
use crate::poll::Poll;
use crate::task::timer::Timer;
use crate::time::{Duration, Instant};

verus! {

/// A future that resolves once a span of time has passed, and that can be reset
/// to wait for the same span again.
#[derive(Clone, Copy, Debug, PartialEq, Eq, Structural)]
pub struct Sleep {
    /// The deadline of the current wait.
    pub timer: Timer,
    /// Whether the future has resolved. Polling it then is a contract violation.
    pub completed: bool,
    /// The span of time to wait from each arming.
    pub dur: Duration,
}

impl Sleep {
    /// What one poll at `now` leaves of the future and what it reports.
    pub open spec fn poll_spec(self, now: Instant) -> (Sleep, Poll<Instant>) {
        if self.timer.fires_at(now) {
            (
                Sleep { timer: Timer { when: None }, completed: true, dur: self.dur },
                Poll::Ready(self.timer.when->0),
            )
        } else {
            (self, Poll::Pending)
        }
    }

    /// Polls the future at the clock reading `now`. It resolves to its deadline at
    /// the first poll that has reached the deadline.
    pub fn poll(&mut self, now: Instant) -> (r: Poll<Instant>)
        requires
            !old(self).completed,
        ensures
            (*final(self), r) == old(self).poll_spec(now),
    {
        match self.timer.poll_fired(now) {
            Poll::Ready(deadline) => {
                self.completed = true;
                Poll::Ready(deadline)
            },
            Poll::Pending => Poll::Pending,
        }
    }
}

/// Sleeps for `dur`, counted from the clock reading `now`.
pub fn sleep(now: Instant, dur: Duration) -> (s: Sleep)
    ensures
        s == (Sleep { timer: Timer::after_spec(now, dur), completed: false, dur }),
{
    Sleep { timer: Timer::after(now, dur), completed: false, dur }
}

} // verus!
