use vstd::prelude::*;
use crate::poll::Poll;
use crate::task::timer::Timer;
use crate::time::Instant;

verus! {

/// A future that resolves once the clock has reached a given instant.
#[derive(Clone, Copy, Debug, PartialEq, Eq, Structural)]
pub struct SleepUntil {
    /// The deadline.
    pub delay: Timer,
}

impl SleepUntil {
    /// A future that resolves at `deadline`.
    pub fn new(deadline: Instant) -> (s: SleepUntil)
        ensures
            s.delay.when == Some(deadline),
    {
        SleepUntil { delay: Timer::at(deadline) }
    }

    /// Polls the future at the clock reading `now`. It resolves to its deadline at
    /// the first poll that has reached the deadline.
    pub fn poll(&mut self, now: Instant) -> (r: Poll<Instant>)
        ensures
            (final(self).delay, r) == old(self).delay.poll_spec(now),
    {
        self.delay.poll_fired(now)
    }
}

/// Sleeps until the clock reads `deadline`.
pub fn sleep_until(deadline: Instant) -> (s: SleepUntil)
    ensures
        s.delay.when == Some(deadline),
{
    SleepUntil::new(deadline)
}

} // verus!
