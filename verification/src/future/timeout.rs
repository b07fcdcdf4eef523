use vstd::prelude::*;
use crate::poll::{Outcome, Poll, Step, TimeoutError, Timed};
use crate::task::timer::{lemma_timer_fires_no_earlier, Timer};
use crate::time::{Duration, Instant};

verus! {

/// A future raced against a deadline: whichever resolves first decides the result,
/// and the future is asked first.
#[derive(Clone, Copy, Debug, PartialEq, Eq, Structural)]
pub enum Timeout {
    /// Neither the future nor the deadline has resolved.
    Racing,
    /// The result has been delivered. Polling again is a contract violation.
    Completed,
}

impl Timeout {
    /// What one poll does, given what the future reports and, where the future is
    /// pending, whether the deadline has fired.
    pub open spec fn poll_spec<T>(self, source: Poll<T>, fired: bool) -> (
        Timeout,
        Outcome<Result<T, TimeoutError>>,
    ) {
        match source {
            Poll::Ready(value) => (Timeout::Completed, Outcome::ready(Ok(value))),
            Poll::Pending => if fired {
                (Timeout::Completed, Outcome::ready(Err(TimeoutError {  })))
            } else {
                (self, Outcome::pending())
            },
        }
    }

    /// What one poll at the clock reading `now` does where the deadline is the
    /// timer `deadline`: the timer is polled only while the future is pending.
    pub open spec fn poll_at_spec<T>(self, deadline: Timer, now: Instant, source: Poll<T>) -> (
        Timeout,
        Timer,
        Outcome<Result<T, TimeoutError>>,
    ) {
        (
            self.poll_spec(source, deadline.fires_at(now)).0,
            if source is Pending {
                deadline.poll_spec(now).0
            } else {
                deadline
            },
            self.poll_spec(source, deadline.fires_at(now)).1,
        )
    }

    /// The timeout and its timer after a run of polls.
    pub open spec fn run_at<T>(self, deadline: Timer, polls: Seq<Timed<Poll<T>>>) -> (
        Timeout,
        Timer,
    )
        decreases polls.len(),
    {
        if polls.len() == 0 {
            (self, deadline)
        } else {
            let before = self.run_at(deadline, polls.drop_last());
            let after = before.0.poll_at_spec(before.1, polls.last().now, polls.last().event);
            (after.0, after.1)
        }
    }

    /// What the poll with index `i` of a run reports.
    pub open spec fn outcome_at<T>(self, deadline: Timer, polls: Seq<Timed<Poll<T>>>, i: int)
        -> Outcome<Result<T, TimeoutError>> {
        let before = self.run_at(deadline, polls.take(i));
        before.0.poll_at_spec(before.1, polls[i].now, polls[i].event).2
    }

    /// A timeout that has not been polled yet.
    pub fn new() -> (t: Timeout)
        ensures
            t == Timeout::Racing,
    {
        Timeout::Racing
    }

    /// Whether the result has been delivered.
    pub fn is_completed(&self) -> (b: bool)
        ensures
            b == (*self == Timeout::Completed),
    {
        match self {
            Timeout::Completed => true,
            Timeout::Racing => false,
        }
    }

    /// Starts a poll: the future is asked before the deadline.
    pub fn begin<T>(&mut self) -> (step: Step<Result<T, TimeoutError>>)
        requires
            *old(self) == Timeout::Racing,
        ensures
            *final(self) == *old(self),
            step == Step::<Result<T, TimeoutError>>::Source,
    {
        Step::Source
    }

    /// Takes what the future reported. A value is delivered as success; while the
    /// future is pending the deadline is asked.
    pub fn on_source<T>(&mut self, source: Poll<T>) -> (step: Step<Result<T, TimeoutError>>)
        requires
            *old(self) == Timeout::Racing,
        ensures
            source is Pending ==> step == Step::<Result<T, TimeoutError>>::Signal && *final(self)
                == *old(self),
            source is Ready ==> step == Step::Done(old(self).poll_spec(source, false).1)
                && *final(self) == old(self).poll_spec(source, false).0,
    {
        match source {
            Poll::Ready(value) => {
                *self = Timeout::Completed;
                Step::Done(Outcome::ready(Ok(value)))
            },
            Poll::Pending => Step::Signal,
        }
    }

    /// Takes what the deadline reported while the future was pending.
    pub fn on_signal<T>(&mut self, fired: bool) -> (step: Step<Result<T, TimeoutError>>)
        requires
            *old(self) == Timeout::Racing,
        ensures
            step == Step::Done(old(self).poll_spec(Poll::<T>::Pending, fired).1),
            *final(self) == old(self).poll_spec(Poll::<T>::Pending, fired).0,
    {
        if fired {
            *self = Timeout::Completed;
            Step::Done(Outcome::ready(Err(TimeoutError {  })))
        } else {
            Step::Done(Outcome::pending())
        }
    }

    /// Runs one whole poll on observations made beforehand: `source` is what the
    /// future reports, `fired` what the deadline would report if asked.
    pub fn poll_with<T>(&mut self, source: Poll<T>, fired: bool) -> (out: Outcome<
        Result<T, TimeoutError>,
    >)
        requires
            *old(self) == Timeout::Racing,
        ensures
            (*final(self), out) == old(self).poll_spec(source, fired),
    {
        let _: Step<Result<T, TimeoutError>> = self.begin();
        match self.on_source(source) {
            Step::Done(out) => out,
            _ => match self.on_signal(fired) {
                Step::Done(out) => out,
                _ => Outcome::pending(),
            },
        }
    }
}

impl Timeout {
    /// Runs one whole poll at the clock reading `now` with the timer `deadline` as
    /// the deadline. `source` is what the future reports.
    pub fn poll_at<T>(&mut self, deadline: &mut Timer, now: Instant, source: Poll<T>) -> (out:
        Outcome<Result<T, TimeoutError>>)
        requires
            *old(self) == Timeout::Racing,
        ensures
            (*final(self), *final(deadline), out) == old(self).poll_at_spec(
                *old(deadline),
                now,
                source,
            ),
    {
        let _: Step<Result<T, TimeoutError>> = self.begin();
        match self.on_source(source) {
            Step::Done(out) => out,
            _ => {
                let fired = deadline.poll_fired(now).is_ready();
                match self.on_signal(fired) {
                    Step::Done(out) => out,
                    _ => Outcome::pending(),
                }
            },
        }
    }
}

/// First resolution wins: a future that resolves is delivered as success with
/// its value unchanged, whether or not the deadline has been reached by then.
pub proof fn lemma_timeout_success_unchanged<T>(deadline: Timer, now: Instant, value: T)
    ensures
        Timeout::Racing.poll_at_spec(deadline, now, Poll::Ready(value)) == (
            Timeout::Completed,
            deadline,
            Outcome::<Result<T, TimeoutError>>::ready(Ok(value)),
        ),
        forall|fired: bool| #[trigger]
            Timeout::Racing.poll_spec(Poll::Ready(value), fired) == (
                Timeout::Completed,
                Outcome::<Result<T, TimeoutError>>::ready(Ok(value)),
            ),
{
}

/// A future that never resolves is timed out at the first poll that is made
/// `dur` or more after the deadline was armed at `start`, and never earlier: of
/// a run of polls that all find the future pending and all come before that
/// time has passed, each reports nothing yet and leaves the timeout and its timer
/// as they were; one more poll, made when the time has passed, reports the
/// error and completes the timeout.
pub proof fn lemma_timeout_never_early<T>(
    start: Instant,
    dur: Duration,
    polls: Seq<Timed<Poll<T>>>,
    late: Timed<Poll<T>>,
)
    requires
        forall|j: int| 0 <= j < polls.len() ==> (#[trigger] polls[j]).event is Pending,
        forall|j: int|
            0 <= j < polls.len() ==> (#[trigger] polls[j]).now.as_nanos() < start.as_nanos()
                + dur.as_nanos(),
        late.event is Pending,
        start.as_nanos() + dur.as_nanos() <= late.now.as_nanos(),
        start.as_nanos() + dur.as_nanos() < Duration::limit(),
    ensures
        Timeout::Racing.run_at(Timer::after_spec(start, dur), polls) == (
            Timeout::Racing,
            Timer::after_spec(start, dur),
        ),
        forall|i: int|
            0 <= i < polls.len() ==> #[trigger] Timeout::Racing.outcome_at(
                Timer::after_spec(start, dur),
                polls,
                i,
            ) == Outcome::<Result<T, TimeoutError>>::pending(),
        Timeout::Racing.outcome_at(
            Timer::after_spec(start, dur),
            polls.push(late),
            polls.len() as int,
        ) == Outcome::<Result<T, TimeoutError>>::ready(Err(TimeoutError {  })),
        Timeout::Racing.run_at(Timer::after_spec(start, dur), polls.push(late)).0
            == Timeout::Completed,
{
    let timer = Timer::after_spec(start, dur);
    assert forall|i: int| 0 <= i <= polls.len() implies #[trigger] Timeout::Racing.run_at(
        timer,
        polls.take(i),
    ) == (Timeout::Racing, timer) by {
        lemma_timeout_keeps_racing(start, dur, polls.take(i));
    }
    assert forall|i: int| 0 <= i < polls.len() implies #[trigger] Timeout::Racing.outcome_at(
        timer,
        polls,
        i,
    ) == Outcome::<Result<T, TimeoutError>>::pending() by {
        lemma_timer_fires_no_earlier(start, dur, polls[i].now);
    }
    lemma_timer_fires_no_earlier(start, dur, late.now);
    assert(polls.take(polls.len() as int) == polls);
    assert(polls.push(late).take(polls.len() as int) == polls);
    assert(polls.push(late).drop_last() == polls);
}

proof fn lemma_timeout_keeps_racing<T>(start: Instant, dur: Duration, polls: Seq<Timed<Poll<T>>>)
    requires
        forall|j: int| 0 <= j < polls.len() ==> (#[trigger] polls[j]).event is Pending,
        forall|j: int|
            0 <= j < polls.len() ==> (#[trigger] polls[j]).now.as_nanos() < start.as_nanos()
                + dur.as_nanos(),
    ensures
        Timeout::Racing.run_at(Timer::after_spec(start, dur), polls) == (
            Timeout::Racing,
            Timer::after_spec(start, dur),
        ),
    decreases polls.len(),
{
    if polls.len() > 0 {
        lemma_timeout_keeps_racing(start, dur, polls.drop_last());
        lemma_timer_fires_no_earlier(start, dur, polls.last().now);
    }
}

} // verus!
