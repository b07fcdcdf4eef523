use vstd::prelude::*;
use crate::poll::{Outcome, Poll, Step};

verus! {

/// A stream whose first poll is held back until a deadline has resolved once.
///
/// The delay is never applied again: once the deadline has resolved, each poll is
/// the stream's own.
#[derive(Clone, Copy, Debug, PartialEq, Eq, Structural)]
pub enum Delay {
    /// The deadline has not resolved yet.
    Timer,
    /// The deadline has resolved; the stream decides.
    Streaming,
}

impl Delay {
    /// What one poll does, given whether the deadline reports that it has fired if
    /// it is asked, and what the stream reports if it is asked.
    pub open spec fn poll_spec<T>(self, fired: bool, source: Poll<Option<T>>) -> (
        Delay,
        Outcome<Option<T>>,
    ) {
        if self == Delay::Timer && !fired {
            (Delay::Timer, Outcome::pending())
        } else {
            (Delay::Streaming, Outcome { result: source, rearm: false, wake: false })
        }
    }

    /// A delay whose deadline has not been asked yet.
    pub fn new() -> (d: Delay)
        ensures
            d == Delay::Timer,
    {
        Delay::Timer
    }

    /// Starts a poll: the deadline is asked while it has not resolved, the stream
    /// after that.
    pub fn begin<T>(&mut self) -> (step: Step<Option<T>>)
        ensures
            *final(self) == *old(self),
            *old(self) == Delay::Timer ==> step == Step::<Option<T>>::Signal,
            *old(self) == Delay::Streaming ==> step == Step::<Option<T>>::Source,
    {
        match self {
            Delay::Timer => Step::Signal,
            Delay::Streaming => Step::Source,
        }
    }

    /// Takes what the deadline reported. Only a deadline that has fired lets the
    /// stream be polled.
    pub fn on_signal<T>(&mut self, fired: bool) -> (step: Step<Option<T>>)
        requires
            *old(self) == Delay::Timer,
        ensures
            fired ==> *final(self) == Delay::Streaming && step == Step::<Option<T>>::Source,
            !fired ==> *final(self) == Delay::Timer && step == Step::Done(
                Outcome::<Option<T>>::pending(),
            ),
    {
        if fired {
            *self = Delay::Streaming;
            Step::Source
        } else {
            Step::Done(Outcome::pending())
        }
    }

    /// Takes what the stream reported and hands it on unchanged.
    pub fn on_source<T>(&mut self, source: Poll<Option<T>>) -> (step: Step<Option<T>>)
        requires
            *old(self) == Delay::Streaming,
        ensures
            *final(self) == Delay::Streaming,
            step == Step::Done(Outcome { result: source, rearm: false, wake: false }),
    {
        Step::Done(Outcome { result: source, rearm: false, wake: false })
    }

    /// Runs one whole poll on observations made beforehand: `fired` is what the
    /// deadline would report if asked, `source` what the stream would.
    pub fn poll_with<T>(&mut self, fired: bool, source: Poll<Option<T>>) -> (out: Outcome<
        Option<T>,
    >)
        ensures
            (*final(self), out) == old(self).poll_spec(fired, source),
    {
        let mut step: Step<Option<T>> = self.begin();
        if let Step::Signal = step {
            step = self.on_signal(fired);
        }
        match step {
            Step::Done(out) => out,
            _ => match self.on_source(source) {
                Step::Done(out) => out,
                _ => Outcome::pending(),
            },
        }
    }
}

} // verus!
