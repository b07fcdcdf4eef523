use vstd::prelude::*;
use crate::poll::{Outcome, Poll, Step};

verus! {

/// A stream that ends when a single deadline for the whole run resolves.
///
/// The deadline is asked before the stream at each poll. Once it has fired the
/// stream is over, whatever the wrapped stream still holds.
#[derive(Clone, Copy, Debug, PartialEq, Eq, Structural)]
pub enum TimeoutOnce {
    /// Items are relayed.
    Streaming,
    /// The end of the stream has been reported. Polling again is a contract
    /// violation.
    Done,
}

impl TimeoutOnce {
    /// What one poll does, given whether the deadline reports that it has fired
    /// and what the stream reports if it is asked.
    pub open spec fn poll_spec<T>(self, fired: bool, source: Poll<Option<T>>) -> (
        TimeoutOnce,
        Outcome<Option<T>>,
    ) {
        if fired {
            (TimeoutOnce::Done, Outcome::ready(None))
        } else {
            (
                if source == Poll::Ready(None::<T>) {
                    TimeoutOnce::Done
                } else {
                    TimeoutOnce::Streaming
                },
                Outcome { result: source, rearm: false, wake: false },
            )
        }
    }

    /// A timeout over a stream that has not been polled yet.
    pub fn new() -> (t: TimeoutOnce)
        ensures
            t == TimeoutOnce::Streaming,
    {
        TimeoutOnce::Streaming
    }

    /// Whether the end of the stream has been reported.
    pub fn is_done(&self) -> (b: bool)
        ensures
            b == (*self == TimeoutOnce::Done),
    {
        match self {
            TimeoutOnce::Done => true,
            TimeoutOnce::Streaming => false,
        }
    }

    /// Starts a poll: the deadline is asked first.
    pub fn begin<T>(&mut self) -> (step: Step<Option<T>>)
        requires
            *old(self) == TimeoutOnce::Streaming,
        ensures
            *final(self) == *old(self),
            step == Step::<Option<T>>::Signal,
    {
        Step::Signal
    }

    /// Takes what the deadline reported. A deadline that has fired ends the
    /// stream; otherwise the stream is asked.
    pub fn on_signal<T>(&mut self, fired: bool) -> (step: Step<Option<T>>)
        requires
            *old(self) == TimeoutOnce::Streaming,
        ensures
            fired ==> *final(self) == TimeoutOnce::Done && step == Step::Done(
                Outcome::<Option<T>>::ready(None),
            ),
            !fired ==> *final(self) == TimeoutOnce::Streaming && step == Step::<
                Option<T>,
            >::Source,
    {
        if fired {
            *self = TimeoutOnce::Done;
            Step::Done(Outcome::ready(None))
        } else {
            Step::Source
        }
    }

    /// Takes what the stream reported and hands it on unchanged.
    pub fn on_source<T>(&mut self, source: Poll<Option<T>>) -> (step: Step<Option<T>>)
        requires
            *old(self) == TimeoutOnce::Streaming,
        ensures
            *final(self) == old(self).poll_spec(false, source).0,
            step == Step::Done(old(self).poll_spec(false, source).1),
    {
        if let Poll::Ready(None) = source {
            *self = TimeoutOnce::Done;
        }
        Step::Done(Outcome { result: source, rearm: false, wake: false })
    }

    /// Runs one whole poll on observations made beforehand: `fired` is what the
    /// deadline reports, `source` what the stream would report if asked.
    pub fn poll_with<T>(&mut self, fired: bool, source: Poll<Option<T>>) -> (out: Outcome<
        Option<T>,
    >)
        requires
            *old(self) == TimeoutOnce::Streaming,
        ensures
            (*final(self), out) == old(self).poll_spec(fired, source),
    {
        let _: Step<Option<T>> = self.begin();
        match self.on_signal(fired) {
            Step::Done(out) => out,
            _ => match self.on_source(source) {
                Step::Done(out) => out,
                _ => Outcome::pending(),
            },
        }
    }
}

} // verus!
