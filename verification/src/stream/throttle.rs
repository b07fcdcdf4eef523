use vstd::prelude::*;
use crate::poll::{Drained, Outcome, Poll, Step, Timed};
use crate::stream::interval::Interval;
use crate::time::instant::lemma_instant_checked_add;
use crate::time::{Duration, Instant};

verus! {

/// How many items a throttled stream lets through in one window.
pub const BUDGET: usize = 1;

/// Where a throttled stream stands.
#[derive(Clone, Copy, Debug, PartialEq, Eq, Structural)]
pub enum ThrottleState {
    /// The source is yielding items; the number counts those let through in the
    /// current window.
    Streaming(usize),
    /// The source is exhausted; the next poll reports the end of the stream.
    StreamDone,
    /// The end of the stream has been reported. Polling again is a contract
    /// violation.
    AllDone,
}

/// A stream that lets the first item of each window through at once and drops
/// the others. A tick of the interval starts a new window.
#[derive(Debug, PartialEq, Eq)]
pub struct Throttle<T> {
    /// Where the stream stands.
    pub state: ThrottleState,
    /// The item that the current poll has let through and not delivered yet.
    pub slot: Option<T>,
}

impl<T> Throttle<T> {
    /// The stream after it has drained `items` from its source within one poll:
    /// the first of them is let through if the window's budget is not used up,
    /// and all others are dropped.
    pub open spec fn drain_spec(self, items: Seq<T>) -> Throttle<T> {
        match self.state {
            ThrottleState::Streaming(count) => if count < BUDGET && items.len() > 0 {
                Throttle { state: ThrottleState::Streaming((count + 1) as usize), slot: Some(items[0]) }
            } else {
                self
            },
            _ => self,
        }
    }

    /// The stream after the interval has reported at the end of a poll: a tick
    /// opens a new window, and the slot is emptied.
    pub open spec fn signal_spec(self, ticked: bool) -> Throttle<T> {
        Throttle {
            state: if ticked && self.state is Streaming {
                ThrottleState::Streaming(0)
            } else {
                self.state
            },
            slot: None,
        }
    }

    /// What the poll reports once the interval has reported: the item let through
    /// by this poll, if there is one. A tick after the end of the source asks for
    /// one more poll, which reports the end of the stream.
    pub open spec fn outcome_spec(self, ticked: bool) -> Outcome<Option<T>> {
        Outcome {
            result: match self.slot {
                Some(item) => Poll::Ready(Some(item)),
                None => Poll::Pending,
            },
            rearm: false,
            wake: ticked && self.state == ThrottleState::StreamDone,
        }
    }

    /// The stream once its source has reported the end.
    pub open spec fn end_spec(self) -> Throttle<T> {
        Throttle { state: ThrottleState::StreamDone, slot: self.slot }
    }

    /// What one poll does, given the items that the source yields in this poll,
    /// whether the source then reports its end (or is pending), and whether the
    /// interval reports a tick.
    pub open spec fn poll_spec(self, items: Seq<T>, exhausted: bool, ticked: bool) -> (
        Throttle<T>,
        Outcome<Option<T>>,
    ) {
        if self.state is Streaming {
            let drained = if exhausted {
                self.drain_spec(items).end_spec()
            } else {
                self.drain_spec(items)
            };
            (drained.signal_spec(ticked), drained.outcome_spec(ticked))
        } else {
            (Throttle { state: ThrottleState::AllDone, slot: self.slot }, Outcome::ready(None))
        }
    }

    /// The stream at the start of its first window.
    pub open spec fn fresh() -> Throttle<T> {
        Throttle { state: ThrottleState::Streaming(0), slot: None }
    }

    /// What one poll at the clock reading `now` does where `interval` marks the
    /// windows: the interval is polled once, after the source, unless the poll
    /// only reports the end of the stream.
    pub open spec fn poll_at_spec(self, interval: Interval, now: Instant, source: Drained<T>) -> (
        Throttle<T>,
        Interval,
        Outcome<Option<T>>,
    ) {
        (
            self.poll_spec(source.items, source.exhausted, interval.delay.fires_at(now)).0,
            if self.state is Streaming {
                interval.poll_spec(now).0
            } else {
                interval
            },
            self.poll_spec(source.items, source.exhausted, interval.delay.fires_at(now)).1,
        )
    }

    /// The stream and its interval after a run of polls.
    pub open spec fn run_at(self, interval: Interval, polls: Seq<Timed<Drained<T>>>) -> (
        Throttle<T>,
        Interval,
    )
        decreases polls.len(),
    {
        if polls.len() == 0 {
            (self, interval)
        } else {
            let before = self.run_at(interval, polls.drop_last());
            let after = before.0.poll_at_spec(before.1, polls.last().now, polls.last().event);
            (after.0, after.1)
        }
    }

    /// How many items a run of polls lets through.
    pub open spec fn let_through(self, interval: Interval, polls: Seq<Timed<Drained<T>>>) -> nat
        decreases polls.len(),
    {
        if polls.len() == 0 {
            0
        } else {
            let before = self.run_at(interval, polls.drop_last());
            let after = before.0.poll_at_spec(before.1, polls.last().now, polls.last().event);
            self.let_through(interval, polls.drop_last()) + if after.2.result matches Poll::Ready(
                Some(_),
            ) {
                1nat
            } else {
                0nat
            }
        }
    }

    /// How many windows a run of polls opens by a tick of the interval.
    pub open spec fn windows_opened(self, interval: Interval, polls: Seq<Timed<Drained<T>>>)
        -> nat
        decreases polls.len(),
    {
        if polls.len() == 0 {
            0
        } else {
            let before = self.run_at(interval, polls.drop_last());
            self.windows_opened(interval, polls.drop_last()) + if before.0.state is Streaming
                && before.1.delay.fires_at(polls.last().now) {
                1nat
            } else {
                0nat
            }
        }
    }

    /// A throttled stream at the start of its first window.
    pub fn new() -> (t: Throttle<T>)
        ensures
            t == Throttle::<T>::fresh(),
    {
        Throttle { state: ThrottleState::Streaming(0), slot: None }
    }

    /// Whether the end of the stream has been reported.
    pub fn is_done(&self) -> (b: bool)
        ensures
            b == (self.state == ThrottleState::AllDone),
    {
        match self.state {
            ThrottleState::AllDone => true,
            _ => false,
        }
    }

    /// Starts a poll. Once the source is exhausted the stream ends here; otherwise
    /// the source is asked.
    pub fn begin(&mut self) -> (step: Step<Option<T>>)
        requires
            old(self).state != ThrottleState::AllDone,
        ensures
            old(self).state is Streaming ==> *final(self) == *old(self) && step == Step::<
                Option<T>,
            >::Source,
            old(self).state == ThrottleState::StreamDone ==> *final(self) == (Throttle {
                state: ThrottleState::AllDone,
                slot: old(self).slot,
            }) && step == Step::Done(Outcome::<Option<T>>::ready(None)),
    {
        match self.state {
            ThrottleState::Streaming(_) => Step::Source,
            _ => {
                self.state = ThrottleState::AllDone;
                Step::Done(Outcome::ready(None))
            },
        }
    }

    /// Takes what the source reported. After an item the source is asked again;
    /// once it is pending or exhausted the interval is asked.
    pub fn on_source(&mut self, source: Poll<Option<T>>) -> (step: Step<Option<T>>)
        requires
            old(self).state is Streaming,
        ensures
            source matches Poll::Ready(Some(item)) ==> *final(self) == old(self).drain_spec(
                seq![item],
            ) && step == Step::<Option<T>>::Source,
            source == Poll::Ready(None::<T>) ==> *final(self) == old(self).end_spec() && step
                == Step::<Option<T>>::Signal,
            source is Pending ==> *final(self) == *old(self) && step == Step::<
                Option<T>,
            >::Signal,
    {
        match source {
            Poll::Ready(Some(item)) => {
                if let ThrottleState::Streaming(count) = self.state {
                    if count < BUDGET {
                        self.slot = Some(item);
                        self.state = ThrottleState::Streaming(count + 1);
                    }
                }
                Step::Source
            },
            Poll::Ready(None) => {
                self.state = ThrottleState::StreamDone;
                Step::Signal
            },
            Poll::Pending => Step::Signal,
        }
    }

    /// Takes what the interval reported and ends the poll.
    pub fn on_signal(&mut self, ticked: bool) -> (step: Step<Option<T>>)
        requires
            old(self).state != ThrottleState::AllDone,
        ensures
            *final(self) == old(self).signal_spec(ticked),
            step == Step::Done(old(self).outcome_spec(ticked)),
    {
        let mut wake = false;
        if ticked {
            match self.state {
                ThrottleState::Streaming(_) => {
                    self.state = ThrottleState::Streaming(0);
                },
                ThrottleState::StreamDone => {
                    wake = true;
                },
                ThrottleState::AllDone => {},
            }
        }
        let result = match self.slot.take() {
            Some(item) => Poll::Ready(Some(item)),
            None => Poll::Pending,
        };
        Step::Done(Outcome { result, rearm: false, wake })
    }

    /// Reports to the stream, one after the other, the items that the source
    /// yields in one poll, and then its end or that it is pending.
    fn drain(&mut self, items: Vec<T>, exhausted: bool)
        requires
            old(self).state is Streaming,
        ensures
            *final(self) == if exhausted {
                old(self).drain_spec(items@).end_spec()
            } else {
                old(self).drain_spec(items@)
            },
    {
        let ghost start = *self;
        for item in iter: items
            invariant
                iter.seq() == items@,
                start.state is Streaming,
                *self == start.drain_spec(items@.take(iter.index() as int)),
        {
            let _ = self.on_source(Poll::Ready(Some(item)));
        }
        assert(items@.take(items@.len() as int) == items@);
        let last = if exhausted { Poll::Ready(None) } else { Poll::Pending };
        let _ = self.on_source(last);
    }

    /// Runs one whole poll on observations made beforehand: `items` are what the
    /// source yields in this poll, `exhausted` says whether it then reports its
    /// end, and `ticked` is what the interval would report if asked.
    pub fn poll_with(&mut self, items: Vec<T>, exhausted: bool, ticked: bool) -> (out: Outcome<
        Option<T>,
    >)
        requires
            old(self).state != ThrottleState::AllDone,
        ensures
            (*final(self), out) == old(self).poll_spec(items@, exhausted, ticked),
    {
        if let Step::Done(out) = self.begin() {
            return out;
        }
        self.drain(items, exhausted);
        match self.on_signal(ticked) {
            Step::Done(out) => out,
            _ => Outcome::pending(),
        }
    }
}

impl<T> Throttle<T> {
    /// Runs one whole poll at the clock reading `now`, with `interval` marking the
    /// windows. `items` are what the source yields in this poll, and `exhausted`
    /// says whether it then reports its end.
    pub fn poll_at(&mut self, interval: &mut Interval, now: Instant, items: Vec<T>, exhausted: bool)
        -> (out: Outcome<Option<T>>)
        requires
            old(self).state != ThrottleState::AllDone,
        ensures
            (*final(self), *final(interval), out) == old(self).poll_at_spec(
                *old(interval),
                now,
                Drained { items: items@, exhausted },
            ),
    {
        if let Step::Done(out) = self.begin() {
            return out;
        }
        self.drain(items, exhausted);
        let ticked = interval.poll_next(now).is_ready();
        match self.on_signal(ticked) {
            Step::Done(out) => out,
            _ => Outcome::pending(),
        }
    }
}

/// The quotient of `a` by `b`, rounded up.
pub open spec fn div_ceil(a: nat, b: nat) -> nat {
    ((a + b - 1) / (b as int)) as nat
}

/// Whether the clock readings of a run never go back, starting from `start`.
pub open spec fn in_time_order<E>(start: Instant, polls: Seq<Timed<E>>) -> bool {
    &&& forall|i: int| 0 <= i < polls.len() ==> start.as_nanos() <= (#[trigger] polls[i]).now.as_nanos()
    &&& forall|i: int, j: int|
        0 <= i <= j < polls.len() ==> (#[trigger] polls[i]).now.as_nanos() <= (
        #[trigger] polls[j]).now.as_nanos()
}

/// Leading edge: what a poll lets through is the first item that the source
/// yields in it, and only while nothing has been let through in the current
/// window. A later item of the window never comes out.
pub proof fn lemma_throttle_first_of_window<T>(
    count: usize,
    items: Seq<T>,
    exhausted: bool,
    ticked: bool,
)
    ensures
        ({
            let stream = Throttle::<T> { state: ThrottleState::Streaming(count), slot: None };
            let out = stream.poll_spec(items, exhausted, ticked).1;
            &&& out.result matches Poll::Ready(Some(item)) ==> count < BUDGET && items.len() > 0
                && item == items[0]
            &&& count < BUDGET && items.len() > 0 ==> out.result == Poll::Ready(Some(items[0]))
            &&& out.result != Poll::Ready(None::<T>)
        }),
{
}

/// A throttled stream lets through at most one item for the window that it
/// starts with and one for each window that a tick opens, and a tick takes a
/// whole period: over a run of polls whose last is made a time `d` after the
/// stream and its interval of period `period` were made at `start`, at most
/// `d / period + 1` items come out. Where `d` is no multiple of the period,
/// that is `d / period` rounded up.
pub proof fn lemma_throttle_rate<T>(
    start: Instant,
    period: Duration,
    polls: Seq<Timed<Drained<T>>>,
)
    requires
        period.as_nanos() > 0,
        polls.len() > 0,
        in_time_order(start, polls),
    ensures
        Throttle::<T>::fresh().let_through(Interval::started(start, period), polls) <= (
        polls.last().now.as_nanos() - start.as_nanos()) / (period.as_nanos() as int) + 1,
        (polls.last().now.as_nanos() - start.as_nanos()) % (period.as_nanos() as int) != 0
            ==> Throttle::<T>::fresh().let_through(Interval::started(start, period), polls)
            <= div_ceil((polls.last().now.as_nanos() - start.as_nanos()) as nat, period.as_nanos()),
{
    let stream = Throttle::<T>::fresh();
    let interval = Interval::started(start, period);
    lemma_throttle_windows(start, period, polls);
    let n = stream.let_through(interval, polls);
    let w = stream.windows_opened(interval, polls);
    let d = polls.last().now.as_nanos() - start.as_nanos();
    let p = period.as_nanos() as int;
    assert(w <= d / p) by (nonlinear_arith)
        requires
            w * p <= d,
            p > 0,
            w >= 0,
    ;
    if d % p != 0 {
        assert((d + p - 1) / p == d / p + 1) by (nonlinear_arith)
            requires
                d % p != 0,
                p > 0,
                d >= 0,
        ;
    }
}

/// At any point of a run, the items let through are accounted for by the windows
/// opened so far and the use made of the current one, and each window opened
/// has taken a whole period.
pub proof fn lemma_throttle_windows<T>(
    start: Instant,
    period: Duration,
    polls: Seq<Timed<Drained<T>>>,
)
    requires
        in_time_order(start, polls),
    ensures
        ({
            let stream = Throttle::<T>::fresh();
            let interval = Interval::started(start, period);
            let end = stream.run_at(interval, polls);
            let n = stream.let_through(interval, polls);
            let w = stream.windows_opened(interval, polls);
            &&& end.0.slot is None
            &&& end.1.interval == period
            &&& n <= w + 1
            &&& end.0.state matches ThrottleState::Streaming(count) ==> n <= w + count
            &&& end.1.delay.when matches Some(deadline) ==> start.as_nanos() + (w + 1)
                * period.as_nanos() <= deadline.as_nanos()
            &&& polls.len() > 0 ==> start.as_nanos() + w * period.as_nanos()
                <= polls.last().now.as_nanos()
        }),
    decreases polls.len(),
{
    let stream = Throttle::<T>::fresh();
    let interval = Interval::started(start, period);
    if polls.len() == 0 {
        lemma_instant_checked_add(start, period);
        assert((0 + 1) * period.as_nanos() == period.as_nanos()) by (nonlinear_arith);
    } else {
        let earlier = polls.drop_last();
        assert(in_time_order(start, earlier)) by {
            assert forall|i: int| 0 <= i < earlier.len() implies start.as_nanos() <= (
            #[trigger] earlier[i]).now.as_nanos() by {
                assert(earlier[i] == polls[i]);
            }
            assert forall|i: int, j: int| 0 <= i <= j < earlier.len() implies (
            #[trigger] earlier[i]).now.as_nanos() <= (#[trigger] earlier[j]).now.as_nanos() by {
                assert(earlier[i] == polls[i]);
                assert(earlier[j] == polls[j]);
            }
        }
        lemma_throttle_windows(start, period, earlier);
        let before = stream.run_at(interval, earlier);
        let now = polls.last().now;
        let w = stream.windows_opened(interval, earlier);
        if earlier.len() > 0 {
            assert(earlier.last() == polls[polls.len() - 2]);
            assert(polls.last() == polls[polls.len() - 1]);
            assert(earlier.last().now.as_nanos() <= now.as_nanos());
        } else {
            assert(polls.last() == polls[0]);
            assert(w * period.as_nanos() == 0) by (nonlinear_arith)
                requires
                    w == 0,
            ;
        }
        if before.0.state is Streaming && before.1.delay.fires_at(now) {
            lemma_instant_checked_add(now, period);
            assert((w + 1 + 1) * period.as_nanos() == (w + 1) * period.as_nanos()
                + period.as_nanos()) by (nonlinear_arith);
        }
    }
}

} // verus!
