use vstd::prelude::*;
use crate::task::sleep::{sleep, Sleep};
use crate::task::sleep_until::{sleep_until, SleepUntil};
use crate::task::timer::Timer;
use crate::time::{Duration, Instant};

verus! {

/// Conversion into a future that can serve as a deadline.
pub trait IntoFuture {
    /// What the future resolves to.
    type Output;

    /// The future that the value becomes.
    type IntoFuture;

    /// Makes the future at the clock reading `now`.
    fn into_future(self, now: Instant) -> Self::IntoFuture;
}

impl IntoFuture for Duration {
    type Output = Instant;

    type IntoFuture = Sleep;

    /// A span of time becomes a sleep of that length, counted from `now`.
    fn into_future(self, now: Instant) -> (s: Sleep)
        ensures
            s == (Sleep { timer: Timer::after_spec(now, self), completed: false, dur: self }),
    {
        sleep(now, self)
    }
}

impl IntoFuture for Instant {
    type Output = Instant;

    type IntoFuture = SleepUntil;

    /// An instant becomes a sleep until that instant, whatever `now` is.
    fn into_future(self, now: Instant) -> (s: SleepUntil)
        ensures
            s.delay.when == Some(self),
    {
        sleep_until(self)
    }
}

} // verus!
