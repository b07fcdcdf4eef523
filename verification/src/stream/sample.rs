use vstd::prelude::*;
use crate::poll::{Drained, Outcome, Poll, Step};
use crate::stream::interval::Interval;
use crate::time::Instant;

verus! {

/// Where a sampled stream stands.
#[derive(Clone, Copy, Debug, PartialEq, Eq, Structural)]
pub enum SampleState {
    /// The source is yielding items.
    Streaming,
    /// The source is exhausted and the last item waits for the next tick.
    Flushing,
    /// The last item has been emitted; the next poll reports the end of the stream.
    StreamDone,
    /// The end of the stream has been reported. Polling again is a contract
    /// violation.
    AllDone,
}

/// A stream that emits, at each tick of an interval, the latest item that its
/// source has yielded since the tick before. A tick without a new item emits
/// nothing.
#[derive(Debug, PartialEq, Eq)]
pub struct Sample<T> {
    /// Where the stream stands.
    pub state: SampleState,
    /// The latest item that has not been emitted, if any.
    pub slot: Option<T>,
}

impl<T> Sample<T> {
    /// The stream after it has drained `items` from its source within one poll:
    /// the last of them takes the slot.
    pub open spec fn drain_spec(self, items: Seq<T>) -> Sample<T> {
        if items.len() > 0 {
            Sample { state: self.state, slot: Some(items.last()) }
        } else {
            self
        }
    }

    /// The stream once its source has reported the end.
    pub open spec fn end_spec(self) -> Sample<T> {
        Sample { state: SampleState::Flushing, slot: self.slot }
    }

    /// What the interval's report does at the end of a poll. A tick emits the
    /// item in the slot. After the end of the source an empty slot ends the
    /// stream at once, and the emission of the last item leaves only the end to
    /// report.
    pub open spec fn signal_spec(self, ticked: bool) -> (Sample<T>, Outcome<Option<T>>) {
        match self.slot {
            Some(item) => if ticked {
                (
                    Sample {
                        state: if self.state == SampleState::Flushing {
                            SampleState::StreamDone
                        } else {
                            self.state
                        },
                        slot: None,
                    },
                    Outcome::ready(Some(item)),
                )
            } else {
                (self, Outcome::pending())
            },
            None => if self.state == SampleState::Flushing {
                (Sample { state: SampleState::AllDone, slot: None }, Outcome::ready(None))
            } else {
                (self, Outcome::pending())
            },
        }
    }

    /// What one poll does, given the items that the source yields in this poll,
    /// whether the source then reports its end (or is pending), and whether the
    /// interval reports a tick.
    pub open spec fn poll_spec(self, items: Seq<T>, exhausted: bool, ticked: bool) -> (
        Sample<T>,
        Outcome<Option<T>>,
    ) {
        match self.state {
            SampleState::Streaming => if exhausted {
                self.drain_spec(items).end_spec().signal_spec(ticked)
            } else {
                self.drain_spec(items).signal_spec(ticked)
            },
            SampleState::Flushing => self.signal_spec(ticked),
            _ => (Sample { state: SampleState::AllDone, slot: self.slot }, Outcome::ready(None)),
        }
    }

    /// The stream that has seen no item yet.
    pub open spec fn fresh() -> Sample<T> {
        Sample { state: SampleState::Streaming, slot: None }
    }

    /// What one poll at the clock reading `now` does where `interval` gives the
    /// ticks: the interval is polled once, after the source, unless the poll only
    /// reports the end of the stream.
    pub open spec fn poll_at_spec(self, interval: Interval, now: Instant, source: Drained<T>) -> (
        Sample<T>,
        Interval,
        Outcome<Option<T>>,
    ) {
        (
            self.poll_spec(source.items, source.exhausted, interval.delay.fires_at(now)).0,
            if self.state == SampleState::Streaming || self.state == SampleState::Flushing {
                interval.poll_spec(now).0
            } else {
                interval
            },
            self.poll_spec(source.items, source.exhausted, interval.delay.fires_at(now)).1,
        )
    }

    /// A sampled stream that has seen no item yet.
    pub fn new() -> (s: Sample<T>)
        ensures
            s == Sample::<T>::fresh(),
    {
        Sample { state: SampleState::Streaming, slot: None }
    }

    /// Whether the end of the stream has been reported.
    pub fn is_done(&self) -> (b: bool)
        ensures
            b == (self.state == SampleState::AllDone),
    {
        match self.state {
            SampleState::AllDone => true,
            _ => false,
        }
    }

    /// Starts a poll. The source is asked while it yields items; after its end
    /// only the interval is asked; after the last emission the stream ends here.
    pub fn begin(&mut self) -> (step: Step<Option<T>>)
        requires
            old(self).state != SampleState::AllDone,
        ensures
            old(self).state == SampleState::Streaming ==> *final(self) == *old(self) && step
                == Step::<Option<T>>::Source,
            old(self).state == SampleState::Flushing ==> *final(self) == *old(self) && step
                == Step::<Option<T>>::Signal,
            old(self).state == SampleState::StreamDone ==> *final(self) == (Sample {
                state: SampleState::AllDone,
                slot: old(self).slot,
            }) && step == Step::Done(Outcome::<Option<T>>::ready(None)),
    {
        match self.state {
            SampleState::Streaming => Step::Source,
            SampleState::Flushing => Step::Signal,
            _ => {
                self.state = SampleState::AllDone;
                Step::Done(Outcome::ready(None))
            },
        }
    }

    /// Takes what the source reported. An item takes the slot, whatever was in
    /// it, and the source is asked again; once the source is pending or exhausted
    /// the interval is asked.
    pub fn on_source(&mut self, source: Poll<Option<T>>) -> (step: Step<Option<T>>)
        requires
            old(self).state == SampleState::Streaming,
        ensures
            source matches Poll::Ready(Some(item)) ==> *final(self) == old(self).drain_spec(
                seq![item],
            ) && step == Step::<Option<T>>::Source,
            source == Poll::Ready(None::<T>) ==> *final(self) == old(self).end_spec() && step
                == Step::<Option<T>>::Signal,
            source is Pending ==> *final(self) == *old(self) && step == Step::<
                Option<T>,
            >::Signal,
    {
        match source {
            Poll::Ready(Some(item)) => {
                self.slot = Some(item);
                Step::Source
            },
            Poll::Ready(None) => {
                self.state = SampleState::Flushing;
                Step::Signal
            },
            Poll::Pending => Step::Signal,
        }
    }

    /// Takes what the interval reported and ends the poll.
    pub fn on_signal(&mut self, ticked: bool) -> (step: Step<Option<T>>)
        requires
            old(self).state == SampleState::Streaming || old(self).state
                == SampleState::Flushing,
        ensures
            *final(self) == old(self).signal_spec(ticked).0,
            step == Step::Done(old(self).signal_spec(ticked).1),
    {
        if self.slot.is_none() {
            if let SampleState::Flushing = self.state {
                self.state = SampleState::AllDone;
                return Step::Done(Outcome::ready(None));
            }
            return Step::Done(Outcome::pending());
        }
        if !ticked {
            return Step::Done(Outcome::pending());
        }
        if let SampleState::Flushing = self.state {
            self.state = SampleState::StreamDone;
        }
        match self.slot.take() {
            Some(item) => Step::Done(Outcome::ready(Some(item))),
            None => Step::Done(Outcome::pending()),
        }
    }

    /// Reports to the stream, one after the other, the items that the source
    /// yields in one poll, and then its end or that it is pending.
    fn drain(&mut self, items: Vec<T>, exhausted: bool)
        requires
            old(self).state == SampleState::Streaming,
        ensures
            *final(self) == if exhausted {
                old(self).drain_spec(items@).end_spec()
            } else {
                old(self).drain_spec(items@)
            },
    {
        let ghost start = *self;
        for item in iter: items
            invariant
                iter.seq() == items@,
                start.state == SampleState::Streaming,
                *self == start.drain_spec(items@.take(iter.index() as int)),
        {
            let _ = self.on_source(Poll::Ready(Some(item)));
        }
        assert(items@.take(items@.len() as int) == items@);
        let last = if exhausted { Poll::Ready(None) } else { Poll::Pending };
        let _ = self.on_source(last);
    }

    /// Runs one whole poll on observations made beforehand: `items` are what the
    /// source yields in this poll if it is asked, `exhausted` says whether it then
    /// reports its end, and `ticked` is what the interval would report if asked.
    pub fn poll_with(&mut self, items: Vec<T>, exhausted: bool, ticked: bool) -> (out: Outcome<
        Option<T>,
    >)
        requires
            old(self).state != SampleState::AllDone,
        ensures
            (*final(self), out) == old(self).poll_spec(items@, exhausted, ticked),
    {
        let first = self.begin();
        if let Step::Done(out) = first {
            return out;
        }
        if let Step::Source = first {
            self.drain(items, exhausted);
        }
        match self.on_signal(ticked) {
            Step::Done(out) => out,
            _ => Outcome::pending(),
        }
    }
}

impl<T> Sample<T> {
    /// Runs one whole poll at the clock reading `now`, with `interval` giving the
    /// ticks. `items` are what the source yields in this poll if it is asked, and
    /// `exhausted` says whether it then reports its end.
    pub fn poll_at(&mut self, interval: &mut Interval, now: Instant, items: Vec<T>, exhausted: bool)
        -> (out: Outcome<Option<T>>)
        requires
            old(self).state != SampleState::AllDone,
        ensures
            (*final(self), *final(interval), out) == old(self).poll_at_spec(
                *old(interval),
                now,
                Drained { items: items@, exhausted },
            ),
    {
        let first = self.begin();
        if let Step::Done(out) = first {
            return out;
        }
        if let Step::Source = first {
            self.drain(items, exhausted);
        }
        let ticked = interval.poll_next(now).is_ready();
        match self.on_signal(ticked) {
            Step::Done(out) => out,
            _ => Outcome::pending(),
        }
    }
}

/// Trailing edge: while the source yields items, a poll emits exactly when the
/// interval ticks and an item is there to emit, and it emits the latest item:
/// the last that the source yielded in this poll, or else the one in the slot.
/// A tick with nothing to emit emits nothing, and so does a poll without a tick.
pub proof fn lemma_sample_emits_latest_at_tick<T>(slot: Option<T>, items: Seq<T>, ticked: bool)
    ensures
        ({
            let stream = Sample { state: SampleState::Streaming, slot };
            let after = stream.poll_spec(items, false, ticked);
            let latest = if items.len() > 0 {
                Some(items.last())
            } else {
                slot
            };
            &&& ticked && latest is Some ==> after.1.result == Poll::Ready(Some(latest->0))
                && after.0.slot is None
            &&& !(ticked && latest is Some) ==> after.1.result is Pending && after.0.slot == latest
            &&& after.0.state == SampleState::Streaming
        }),
{
}

/// After the end of the source the latest item is not lost: it stays in the slot
/// until the next tick emits it, and only then is the end of the stream reported.
pub proof fn lemma_sample_flushes_latest<T>(stream: Sample<T>, item: T, ticked: bool)
    requires
        stream.state == SampleState::Flushing,
        stream.slot == Some(item),
    ensures
        !ticked ==> stream.poll_spec(Seq::empty(), false, ticked) == (
            stream,
            Outcome::<Option<T>>::pending(),
        ),
        ticked ==> stream.poll_spec(Seq::empty(), false, ticked) == (
            Sample::<T> { state: SampleState::StreamDone, slot: None },
            Outcome::ready(Some(item)),
        ),
{
}

} // verus!
