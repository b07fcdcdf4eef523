use vstd::prelude::*;
use crate::poll::{Outcome, Poll, Step, TimeoutError, Timed};
use crate::task::timer::{lemma_timer_fires_no_earlier, Timer};
use crate::time::{Duration, Instant};

verus! {

/// A stream in which no item may be longer in coming than a deadline allows.
///
/// The stream is asked before the deadline. Each item arms the deadline anew, so
/// the deadline bounds the gap between items, not the whole run. A deadline that
/// fires is reported once as an error; after that the stream is over.
#[derive(Clone, Copy, Debug, PartialEq, Eq, Structural)]
pub enum Timeout {
    /// Items are relayed.
    Streaming,
    /// The error has been delivered; the next poll reports the end of the stream.
    TimedOut,
    /// The end of the stream has been reported. Polling again is a contract
    /// violation.
    Done,
}

impl Timeout {
    /// What one poll does, given what the stream reports if it is asked and whether
    /// the deadline reports that it has fired if it is asked.
    pub open spec fn poll_spec<T>(self, source: Poll<Option<T>>, fired: bool) -> (
        Timeout,
        Outcome<Option<Result<T, TimeoutError>>>,
    ) {
        if self == Timeout::Streaming {
            match source {
                Poll::Ready(Some(item)) => (
                    Timeout::Streaming,
                    Outcome { result: Poll::Ready(Some(Ok(item))), rearm: true, wake: false },
                ),
                Poll::Ready(None) => (Timeout::Done, Outcome::ready(None)),
                Poll::Pending => if fired {
                    (Timeout::TimedOut, Outcome::ready(Some(Err(TimeoutError {  }))))
                } else {
                    (Timeout::Streaming, Outcome::pending())
                },
            }
        } else {
            (Timeout::Done, Outcome::ready(None))
        }
    }

    /// What one poll at the clock reading `now` does where each item may take
    /// `budget` and `deadline` measures it: the timer is polled only while the
    /// stream is pending, and an item arms it for one budget from `now`.
    pub open spec fn poll_at_spec<T>(
        self,
        deadline: Timer,
        budget: Duration,
        now: Instant,
        source: Poll<Option<T>>,
    ) -> (Timeout, Timer, Outcome<Option<Result<T, TimeoutError>>>) {
        (
            self.poll_spec(source, deadline.fires_at(now)).0,
            if self != Timeout::Streaming {
                deadline
            } else if source is Pending {
                deadline.poll_spec(now).0
            } else if source == Poll::Ready(None::<T>) {
                deadline
            } else {
                Timer::after_spec(now, budget)
            },
            self.poll_spec(source, deadline.fires_at(now)).1,
        )
    }

    /// The timeout and its timer after a run of polls.
    pub open spec fn run_at<T>(
        self,
        deadline: Timer,
        budget: Duration,
        polls: Seq<Timed<Poll<Option<T>>>>,
    ) -> (Timeout, Timer)
        decreases polls.len(),
    {
        if polls.len() == 0 {
            (self, deadline)
        } else {
            let before = self.run_at(deadline, budget, polls.drop_last());
            let after = before.0.poll_at_spec(
                before.1,
                budget,
                polls.last().now,
                polls.last().event,
            );
            (after.0, after.1)
        }
    }

    /// What the poll with index `i` of a run reports.
    pub open spec fn outcome_at<T>(
        self,
        deadline: Timer,
        budget: Duration,
        polls: Seq<Timed<Poll<Option<T>>>>,
        i: int,
    ) -> Outcome<Option<Result<T, TimeoutError>>> {
        let before = self.run_at(deadline, budget, polls.take(i));
        before.0.poll_at_spec(before.1, budget, polls[i].now, polls[i].event).2
    }

    /// A timeout over a stream that has not been polled yet.
    pub fn new() -> (t: Timeout)
        ensures
            t == Timeout::Streaming,
    {
        Timeout::Streaming
    }

    /// Whether the end of the stream has been reported.
    pub fn is_done(&self) -> (b: bool)
        ensures
            b == (*self == Timeout::Done),
    {
        match self {
            Timeout::Done => true,
            _ => false,
        }
    }

    /// Starts a poll. After an error the stream ends here; otherwise the stream is
    /// asked.
    pub fn begin<T>(&mut self) -> (step: Step<Option<Result<T, TimeoutError>>>)
        requires
            *old(self) != Timeout::Done,
        ensures
            *old(self) == Timeout::Streaming ==> *final(self) == Timeout::Streaming && step
                == Step::<Option<Result<T, TimeoutError>>>::Source,
            *old(self) == Timeout::TimedOut ==> *final(self) == Timeout::Done && step
                == Step::Done(Outcome::<Option<Result<T, TimeoutError>>>::ready(None)),
    {
        match self {
            Timeout::Streaming => Step::Source,
            _ => {
                *self = Timeout::Done;
                Step::Done(Outcome::ready(None))
            },
        }
    }

    /// Takes what the stream reported. An item is delivered and arms the deadline
    /// anew; the end of the stream is handed on; while the stream is pending the
    /// deadline is asked.
    pub fn on_source<T>(&mut self, source: Poll<Option<T>>) -> (step: Step<
        Option<Result<T, TimeoutError>>,
    >)
        requires
            *old(self) == Timeout::Streaming,
        ensures
            source is Pending ==> *final(self) == Timeout::Streaming && step == Step::<
                Option<Result<T, TimeoutError>>,
            >::Signal,
            source is Ready ==> *final(self) == old(self).poll_spec(source, false).0 && step
                == Step::Done(old(self).poll_spec(source, false).1),
    {
        match source {
            Poll::Ready(Some(item)) => Step::Done(
                Outcome { result: Poll::Ready(Some(Ok(item))), rearm: true, wake: false },
            ),
            Poll::Ready(None) => {
                *self = Timeout::Done;
                Step::Done(Outcome::ready(None))
            },
            Poll::Pending => Step::Signal,
        }
    }

    /// Takes what the deadline reported while the stream was pending.
    pub fn on_signal<T>(&mut self, fired: bool) -> (step: Step<Option<Result<T, TimeoutError>>>)
        requires
            *old(self) == Timeout::Streaming,
        ensures
            *final(self) == old(self).poll_spec(Poll::<Option<T>>::Pending, fired).0,
            step == Step::Done(old(self).poll_spec(Poll::<Option<T>>::Pending, fired).1),
    {
        if fired {
            *self = Timeout::TimedOut;
            Step::Done(Outcome::ready(Some(Err(TimeoutError {  }))))
        } else {
            Step::Done(Outcome::pending())
        }
    }

    /// Runs one whole poll on observations made beforehand: `source` is what the
    /// stream would report if asked, `fired` what the deadline would.
    pub fn poll_with<T>(&mut self, source: Poll<Option<T>>, fired: bool) -> (out: Outcome<
        Option<Result<T, TimeoutError>>,
    >)
        requires
            *old(self) != Timeout::Done,
        ensures
            (*final(self), out) == old(self).poll_spec(source, fired),
    {
        match self.begin() {
            Step::Done(out) => out,
            _ => match self.on_source(source) {
                Step::Done(out) => out,
                _ => match self.on_signal(fired) {
                    Step::Done(out) => out,
                    _ => Outcome::pending(),
                },
            },
        }
    }
}

impl Timeout {
    /// Runs one whole poll at the clock reading `now`, with `deadline` measuring
    /// the budget `budget` of each item. `source` is what the stream reports.
    pub fn poll_at<T>(
        &mut self,
        deadline: &mut Timer,
        budget: Duration,
        now: Instant,
        source: Poll<Option<T>>,
    ) -> (out: Outcome<Option<Result<T, TimeoutError>>>)
        requires
            *old(self) != Timeout::Done,
        ensures
            (*final(self), *final(deadline), out) == old(self).poll_at_spec(
                *old(deadline),
                budget,
                now,
                source,
            ),
    {
        if let Step::Done(out) = self.begin() {
            return out;
        }
        let out = match self.on_source(source) {
            Step::Done(out) => out,
            _ => {
                let fired = deadline.poll_fired(now).is_ready();
                match self.on_signal(fired) {
                    Step::Done(out) => out,
                    _ => Outcome::pending(),
                }
            },
        };
        if out.rearm {
            deadline.set_after(now, budget);
        }
        out
    }
}

/// Each item gets a budget of its own: the poll that delivers an item arms the
/// timer for one whole budget from that poll, whatever was left of the budget
/// before. Polls that then find the stream pending report no error as long as
/// they come before the budget has passed, and leave the timeout as it was.
pub proof fn lemma_stream_timeout_fresh_budget<T>(
    deadline: Timer,
    budget: Duration,
    arrival: Instant,
    item: T,
    polls: Seq<Timed<Poll<Option<T>>>>,
)
    requires
        forall|j: int| 0 <= j < polls.len() ==> (#[trigger] polls[j]).event is Pending,
        forall|j: int|
            0 <= j < polls.len() ==> (#[trigger] polls[j]).now.as_nanos() < arrival.as_nanos()
                + budget.as_nanos(),
    ensures
        Timeout::Streaming.poll_at_spec(deadline, budget, arrival, Poll::Ready(Some(item))) == (
            Timeout::Streaming,
            Timer::after_spec(arrival, budget),
            Outcome { result: Poll::Ready(Some(Ok::<T, TimeoutError>(item))), rearm: true, wake: false },
        ),
        Timeout::Streaming.run_at(Timer::after_spec(arrival, budget), budget, polls) == (
            Timeout::Streaming,
            Timer::after_spec(arrival, budget),
        ),
        forall|i: int|
            0 <= i < polls.len() ==> #[trigger] Timeout::Streaming.outcome_at(
                Timer::after_spec(arrival, budget),
                budget,
                polls,
                i,
            ) == Outcome::<Option<Result<T, TimeoutError>>>::pending(),
{
    let timer = Timer::after_spec(arrival, budget);
    assert forall|i: int| 0 <= i <= polls.len() implies #[trigger] Timeout::Streaming.run_at(
        timer,
        budget,
        polls.take(i),
    ) == (Timeout::Streaming, timer) by {
        lemma_stream_timeout_keeps_streaming(budget, arrival, polls.take(i));
    }
    assert(polls.take(polls.len() as int) == polls);
    assert forall|i: int| 0 <= i < polls.len() implies #[trigger] Timeout::Streaming.outcome_at(
        timer,
        budget,
        polls,
        i,
    ) == Outcome::<Option<Result<T, TimeoutError>>>::pending() by {
        lemma_timer_fires_no_earlier(arrival, budget, polls[i].now);
    }
}

proof fn lemma_stream_timeout_keeps_streaming<T>(
    budget: Duration,
    arrival: Instant,
    polls: Seq<Timed<Poll<Option<T>>>>,
)
    requires
        forall|j: int| 0 <= j < polls.len() ==> (#[trigger] polls[j]).event is Pending,
        forall|j: int|
            0 <= j < polls.len() ==> (#[trigger] polls[j]).now.as_nanos() < arrival.as_nanos()
                + budget.as_nanos(),
    ensures
        Timeout::Streaming.run_at(Timer::after_spec(arrival, budget), budget, polls) == (
            Timeout::Streaming,
            Timer::after_spec(arrival, budget),
        ),
    decreases polls.len(),
{
    if polls.len() > 0 {
        lemma_stream_timeout_keeps_streaming(budget, arrival, polls.drop_last());
        lemma_timer_fires_no_earlier(arrival, budget, polls.last().now);
    }
}

/// A deadline that fires is reported once: the poll that finds the stream
/// pending and the deadline fired reports the error, the next poll reports the
/// end of the stream, and the stream is never asked again.
pub proof fn lemma_stream_timeout_is_final<T>(source: Poll<Option<T>>, fired: bool)
    ensures
        Timeout::Streaming.poll_spec(Poll::<Option<T>>::Pending, true) == (
            Timeout::TimedOut,
            Outcome::<Option<Result<T, TimeoutError>>>::ready(Some(Err(TimeoutError {  }))),
        ),
        Timeout::TimedOut.poll_spec(source, fired) == (
            Timeout::Done,
            Outcome::<Option<Result<T, TimeoutError>>>::ready(None),
        ),
{
}

} // verus!
