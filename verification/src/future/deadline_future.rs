use vstd::prelude::*;
use crate::task::sleep::Sleep;
use crate::task::timer::Timer;
use crate::time::Instant;

verus! {

/// A future that can be used as a deadline which moves: its deadline can be
/// shifted to a later point, as a debounce does with each new item.
pub trait ResetDeadlineFuture {
    /// Shifts the deadline so that the whole wait lies ahead again at the clock
    /// reading `now`.
    fn reset_deadline(&mut self, now: Instant);
}

impl ResetDeadlineFuture for Sleep {
    /// A sleep waits for its whole span again, counted from `now`.
    fn reset_deadline(&mut self, now: Instant)
        ensures
            *final(self) == (Sleep {
                timer: Timer::after_spec(now, old(self).dur),
                completed: false,
                dur: old(self).dur,
            }),
    {
        self.timer.set_after(now, self.dur);
        self.completed = false;
    }
}

} // verus!
