use vstd::prelude::*;
use crate::poll::Poll;
use crate::task::timer::{lemma_timer_fires_no_earlier, Timer};
use crate::time::{Duration, Instant};

verus! {

/// A stream of ticks, one each time a fixed period has passed.
///
/// The stream never ends. After a tick the next deadline is one period after the
/// poll that delivered the tick, not after the deadline that fired: a stalled
/// consumer gets no burst of late ticks, and the schedule drifts instead.
#[derive(Clone, Copy, Debug, PartialEq, Eq, Structural)]
pub struct Interval {
    /// The deadline of the next tick.
    pub delay: Timer,
    /// The time from the delivery of one tick to the deadline of the next.
    pub interval: Duration,
}

impl Interval {
    /// What one poll at `now` leaves of the stream and what it reports.
    pub open spec fn poll_spec(self, now: Instant) -> (Interval, Poll<Option<Instant>>) {
        if self.delay.fires_at(now) {
            (
                Interval { delay: Timer::after_spec(now, self.interval), interval: self.interval },
                Poll::Ready(Some(self.delay.when->0)),
            )
        } else {
            (self, Poll::Pending)
        }
    }

    /// The stream after polls at the clock readings `times`.
    pub open spec fn run(self, times: Seq<Instant>) -> Interval
        decreases times.len(),
    {
        if times.len() == 0 {
            self
        } else {
            self.run(times.drop_last()).poll_spec(times.last()).0
        }
    }

    /// Whether the poll with index `i` of a run delivers a tick.
    pub open spec fn ticks_at(self, times: Seq<Instant>, i: int) -> bool {
        self.run(times.take(i)).delay.fires_at(times[i])
    }

    /// How many ticks the polls at the clock readings `times` deliver.
    pub open spec fn ticks(self, times: Seq<Instant>) -> nat
        decreases times.len(),
    {
        if times.len() == 0 {
            0
        } else {
            self.ticks(times.drop_last()) + if self.run(times.drop_last()).delay.fires_at(
                times.last(),
            ) {
                1nat
            } else {
                0nat
            }
        }
    }

    /// The stream made at the clock reading `now` with the period `dur`.
    pub open spec fn started(now: Instant, dur: Duration) -> Interval {
        Interval { delay: Timer::after_spec(now, dur), interval: dur }
    }

    /// Polls the stream at the clock reading `now`. A tick carries the deadline
    /// that fired; with it the timer is armed for one more period from `now`.
    pub fn poll_next(&mut self, now: Instant) -> (r: Poll<Option<Instant>>)
        ensures
            (*final(self), r) == old(self).poll_spec(now),
    {
        match self.delay.poll_fired(now) {
            Poll::Ready(deadline) => {
                self.delay.set_after(now, self.interval);
                Poll::Ready(Some(deadline))
            },
            Poll::Pending => Poll::Pending,
        }
    }
}

/// A stream that ticks first `dur` after the clock reading `now`, and then each
/// time `dur` has passed since the last tick was delivered.
pub fn interval(now: Instant, dur: Duration) -> (i: Interval)
    ensures
        i == Interval::started(now, dur),
{
    Interval { delay: Timer::after(now, dur), interval: dur }
}

/// Ticks take time: where the poll with index `i` of a run delivers a tick, and
/// that tick is the `k`-th of the run, the poll was made no earlier than `k`
/// periods after the stream was made at `start`. The ticks are never more than
/// the polls, since one poll delivers one tick at most.
pub proof fn lemma_interval_ticks_take_time(
    start: Instant,
    period: Duration,
    times: Seq<Instant>,
    i: int,
)
    requires
        0 <= i < times.len(),
        Interval::started(start, period).ticks_at(times, i),
    ensures
        Interval::started(start, period).ticks(times.take(i + 1)) <= i + 1,
        start.as_nanos() + Interval::started(start, period).ticks(times.take(i + 1))
            * period.as_nanos() <= times[i].as_nanos(),
{
    let stream = Interval::started(start, period);
    let upto = times.take(i + 1);
    let before = times.take(i);
    assert(upto.drop_last() == before);
    lemma_interval_next_deadline(start, period, upto);
    lemma_interval_next_deadline(start, period, before);
    assert(stream.ticks(upto) == stream.ticks(before) + 1);
}

/// At any point of a run the next deadline, if the timer is armed, lies at
/// least one period further from `start` than the ticks delivered so far account
/// for.
pub proof fn lemma_interval_next_deadline(start: Instant, period: Duration, times: Seq<Instant>)
    ensures
        Interval::started(start, period).ticks(times) <= times.len(),
        Interval::started(start, period).run(times).interval == period,
        Interval::started(start, period).run(times).delay.when matches Some(deadline)
            ==> start.as_nanos() + (Interval::started(start, period).ticks(times) + 1)
            * period.as_nanos() <= deadline.as_nanos(),
    decreases times.len(),
{
    let stream = Interval::started(start, period);
    if times.len() == 0 {
        lemma_timer_fires_no_earlier(start, period, start);
        crate::time::instant::lemma_instant_checked_add(start, period);
        assert((0 + 1) * period.as_nanos() == period.as_nanos()) by (nonlinear_arith);
    } else {
        let before = times.drop_last();
        lemma_interval_next_deadline(start, period, before);
        let k = stream.ticks(before);
        let now = times.last();
        if stream.run(before).delay.fires_at(now) {
            crate::time::instant::lemma_instant_checked_add(now, period);
            assert((k + 1 + 1) * period.as_nanos() == (k + 1) * period.as_nanos()
                + period.as_nanos()) by (nonlinear_arith);
        }
    }
}

} // verus!
