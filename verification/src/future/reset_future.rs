use vstd::prelude::*;
use crate::task::sleep::Sleep;
use crate::task::timer::Timer;
use crate::time::Instant;

verus! {

/// A future whose wait can be started over, as a deadline that is pushed back
/// each time something happens.
pub trait ResetFuture {
    /// Starts the wait over at the clock reading `now`.
    fn reset(&mut self, now: Instant);
}

impl ResetFuture for Sleep {
    /// A sleep waits for its whole span again, counted from `now`.
    fn reset(&mut self, now: Instant)
        ensures
            *final(self) == (Sleep {
                timer: Timer::after_spec(now, old(self).dur),
                completed: false,
                dur: old(self).dur,
            }),
    {
        self.timer.set_after(now, self.dur);
        self.completed = false;
    }
}

} // verus!
