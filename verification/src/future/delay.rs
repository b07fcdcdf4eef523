use vstd::prelude::*;
use crate::poll::{Observed, Outcome, Poll, Step};

verus! {

/// A future held back until a deadline has resolved once.
///
/// While the deadline is pending the future is not polled at all. Once the
/// deadline has resolved it is never asked again, and each poll is the future's own.
#[derive(Clone, Copy, Debug, PartialEq, Eq, Structural)]
pub enum Delay {
    /// The deadline has not resolved yet.
    Waiting,
    /// The deadline has resolved; the future decides.
    Passing,
    /// The future's value has been delivered. Polling again is a contract violation.
    Completed,
}

impl Delay {
    /// What one poll does, given whether the deadline reports that it has fired if
    /// it is asked, and what the future reports if it is asked.
    pub open spec fn poll_spec<T>(self, fired: bool, source: Poll<T>) -> (Delay, Outcome<T>) {
        if self == Delay::Waiting && !fired {
            (Delay::Waiting, Outcome::pending())
        } else {
            match source {
                Poll::Ready(value) => (Delay::Completed, Outcome::ready(value)),
                Poll::Pending => (Delay::Passing, Outcome::pending()),
            }
        }
    }

    /// What the delay asks for at the start of a poll.
    pub open spec fn begin_spec<T>(self) -> Step<T> {
        if self == Delay::Waiting {
            Step::Signal
        } else {
            Step::Source
        }
    }

    /// The delay after a run of polls.
    pub open spec fn run<T>(self, polls: Seq<Observed<Poll<T>>>) -> Delay
        decreases polls.len(),
    {
        if polls.len() == 0 {
            self
        } else {
            self.run(polls.drop_last()).poll_spec(polls.last().fired, polls.last().source).0
        }
    }

    /// What the poll with index `i` of a run reports.
    pub open spec fn outcome_at<T>(self, polls: Seq<Observed<Poll<T>>>, i: int) -> Outcome<T> {
        self.run(polls.take(i)).poll_spec(polls[i].fired, polls[i].source).1
    }

    /// A delay whose deadline has not been asked yet.
    pub fn new() -> (d: Delay)
        ensures
            d == Delay::Waiting,
    {
        Delay::Waiting
    }

    /// Whether the future's value has been delivered.
    pub fn is_completed(&self) -> (b: bool)
        ensures
            b == (*self == Delay::Completed),
    {
        match self {
            Delay::Completed => true,
            _ => false,
        }
    }

    /// Starts a poll: the deadline is asked while it has not resolved, the future
    /// after that.
    pub fn begin<T>(&mut self) -> (step: Step<T>)
        requires
            *old(self) != Delay::Completed,
        ensures
            *final(self) == *old(self),
            step == old(self).begin_spec::<T>(),
    {
        match self {
            Delay::Waiting => Step::Signal,
            _ => Step::Source,
        }
    }

    /// Takes what the deadline reported. Only a deadline that has fired lets the
    /// future be polled.
    pub fn on_signal<T>(&mut self, fired: bool) -> (step: Step<T>)
        requires
            *old(self) == Delay::Waiting,
        ensures
            fired ==> *final(self) == Delay::Passing && step == Step::<T>::Source,
            !fired ==> *final(self) == Delay::Waiting && step == Step::Done(
                Outcome::<T>::pending(),
            ),
    {
        if fired {
            *self = Delay::Passing;
            Step::Source
        } else {
            Step::Done(Outcome::pending())
        }
    }

    /// Takes what the future reported and hands it on unchanged.
    pub fn on_source<T>(&mut self, source: Poll<T>) -> (step: Step<T>)
        requires
            *old(self) == Delay::Passing,
        ensures
            step == Step::Done(old(self).poll_spec(true, source).1),
            *final(self) == old(self).poll_spec(true, source).0,
    {
        match source {
            Poll::Ready(value) => {
                *self = Delay::Completed;
                Step::Done(Outcome::ready(value))
            },
            Poll::Pending => Step::Done(Outcome::pending()),
        }
    }

    /// Runs one whole poll on observations made beforehand: `fired` is what the
    /// deadline would report if asked, `source` what the future would.
    pub fn poll_with<T>(&mut self, fired: bool, source: Poll<T>) -> (out: Outcome<T>)
        requires
            *old(self) != Delay::Completed,
        ensures
            (*final(self), out) == old(self).poll_spec(fired, source),
    {
        let mut step: Step<T> = self.begin();
        if let Step::Signal = step {
            step = self.on_signal(fired);
        }
        match step {
            Step::Done(out) => out,
            _ => match self.on_source(source) {
                Step::Done(out) => out,
                _ => Outcome::pending(),
            },
        }
    }
}

/// A new delay asks its deadline first, whatever the future holds and however
/// short the deadline is: there is no path to the future that skips the deadline.
/// As long as the deadline has not fired, each poll reports nothing yet, and what
/// the future would report has no part in it.
pub proof fn lemma_delay_asks_deadline_first<T>(polls: Seq<Observed<Poll<T>>>, other: Poll<T>)
    requires
        forall|j: int| 0 <= j < polls.len() ==> !(#[trigger] polls[j]).fired,
    ensures
        Delay::Waiting.begin_spec::<T>() == Step::<T>::Signal,
        Delay::Waiting.run(polls) == Delay::Waiting,
        forall|i: int|
            0 <= i < polls.len() ==> #[trigger] Delay::Waiting.outcome_at(polls, i)
                == Outcome::<T>::pending(),
        forall|i: int|
            0 <= i < polls.len() ==> Delay::Waiting.run(polls.take(i)).poll_spec(
                (#[trigger] polls[i]).fired,
                other,
            ) == (Delay::Waiting, Outcome::<T>::pending()),
    decreases polls.len(),
{
    assert forall|i: int| 0 <= i <= polls.len() implies #[trigger] Delay::Waiting.run(
        polls.take(i),
    ) == Delay::Waiting by {
        lemma_delay_stays_waiting(polls.take(i));
    }
    assert(polls.take(polls.len() as int) == polls);
}

proof fn lemma_delay_stays_waiting<T>(polls: Seq<Observed<Poll<T>>>)
    requires
        forall|j: int| 0 <= j < polls.len() ==> !(#[trigger] polls[j]).fired,
    ensures
        Delay::Waiting.run(polls) == Delay::Waiting,
    decreases polls.len(),
{
    if polls.len() > 0 {
        lemma_delay_stays_waiting(polls.drop_last());
    }
}

/// Once the deadline has fired, the delay hands on what the future reports,
/// unchanged, and does not ask the deadline again.
pub proof fn lemma_delay_passes_through<T>(delay: Delay, fired: bool, source: Poll<T>)
    requires
        delay == Delay::Passing || (delay == Delay::Waiting && fired),
    ensures
        delay.poll_spec(fired, source).1 == (Outcome { result: source, rearm: false, wake: false }),
        source is Pending ==> delay.poll_spec(fired, source).0 == Delay::Passing,
        Delay::Passing.begin_spec::<T>() == Step::<T>::Source,
{
}

} // verus!
