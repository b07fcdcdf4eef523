use vstd::prelude::*;
use crate::poll::{Drained, Observed, Outcome, Poll, Step};
use crate::stream::interval::Interval;
use crate::time::Instant;

verus! {

/// Where a buffered stream stands.
#[derive(Clone, Copy, Debug, PartialEq, Eq, Structural)]
pub enum BufferState {
    /// The source is yielding items.
    Streaming,
    /// The source is exhausted and the last batch waits for the next tick.
    Flushing,
    /// The last batch has been emitted; the next poll reports the end of the
    /// stream.
    StreamDone,
    /// The end of the stream has been reported. Polling again is a contract
    /// violation.
    AllDone,
}

/// A stream that collects the items of its source and emits them, at each tick of
/// an interval, as one batch in the order in which they came. A tick without
/// items emits an empty batch. No item is dropped.
#[derive(Debug, PartialEq, Eq)]
pub struct Buffer<T> {
    /// Where the stream stands.
    pub state: BufferState,
    /// The items collected since the last batch was emitted.
    pub batch: Vec<T>,
}

/// A buffered stream as a mathematical value.
pub struct BufferView<T> {
    /// Where the stream stands.
    pub state: BufferState,
    /// The items collected since the last batch was emitted.
    pub batch: Seq<T>,
}

impl<T> View for Buffer<T> {
    type V = BufferView<T>;

    open spec fn view(&self) -> BufferView<T> {
        BufferView { state: self.state, batch: self.batch@ }
    }
}

/// What a poll of a buffered stream reports, with the batch as a sequence.
pub open spec fn batch_view<T>(out: Outcome<Option<Vec<T>>>) -> Outcome<Option<Seq<T>>> {
    Outcome {
        result: match out.result {
            Poll::Ready(Some(batch)) => Poll::Ready(Some(batch@)),
            Poll::Ready(None) => Poll::Ready(None),
            Poll::Pending => Poll::Pending,
        },
        rearm: out.rearm,
        wake: out.wake,
    }
}

impl<T> BufferView<T> {
    /// The stream after it has drained `items` from its source within one poll:
    /// they are appended to the batch.
    pub open spec fn drain_spec(self, items: Seq<T>) -> BufferView<T> {
        BufferView { state: self.state, batch: self.batch + items }
    }

    /// The stream once its source has reported the end.
    pub open spec fn end_spec(self) -> BufferView<T> {
        BufferView { state: BufferState::Flushing, batch: self.batch }
    }

    /// What the interval's report does at the end of a poll. A tick emits the
    /// batch, empty or not, and starts a new one. After the end of the source an
    /// empty batch ends the stream at once, and the emission of the last batch
    /// leaves only the end to report.
    pub open spec fn signal_spec(self, ticked: bool) -> (BufferView<T>, Outcome<Option<Seq<T>>>) {
        if self.state == BufferState::Flushing && self.batch.len() == 0 {
            (BufferView { state: BufferState::AllDone, batch: self.batch }, Outcome::ready(None))
        } else if ticked {
            (
                BufferView {
                    state: if self.state == BufferState::Flushing {
                        BufferState::StreamDone
                    } else {
                        self.state
                    },
                    batch: Seq::empty(),
                },
                Outcome::ready(Some(self.batch)),
            )
        } else {
            (self, Outcome::pending())
        }
    }

    /// What one poll does, given the items that the source yields in this poll,
    /// whether the source then reports its end (or is pending), and whether the
    /// interval reports a tick.
    pub open spec fn poll_spec(self, items: Seq<T>, exhausted: bool, ticked: bool) -> (
        BufferView<T>,
        Outcome<Option<Seq<T>>>,
    ) {
        match self.state {
            BufferState::Streaming => if exhausted {
                self.drain_spec(items).end_spec().signal_spec(ticked)
            } else {
                self.drain_spec(items).signal_spec(ticked)
            },
            BufferState::Flushing => self.signal_spec(ticked),
            _ => (
                BufferView { state: BufferState::AllDone, batch: self.batch },
                Outcome::ready(None),
            ),
        }
    }
}

impl<T> BufferView<T> {
    /// The stream that has collected nothing yet.
    pub open spec fn fresh() -> BufferView<T> {
        BufferView { state: BufferState::Streaming, batch: Seq::empty() }
    }

    /// What one poll at the clock reading `now` does where `interval` gives the
    /// ticks: the interval is polled once, after the source, unless the poll only
    /// reports the end of the stream.
    pub open spec fn poll_at_spec(self, interval: Interval, now: Instant, source: Drained<T>) -> (
        BufferView<T>,
        Interval,
        Outcome<Option<Seq<T>>>,
    ) {
        (
            self.poll_spec(source.items, source.exhausted, interval.delay.fires_at(now)).0,
            if self.state == BufferState::Streaming || self.state == BufferState::Flushing {
                interval.poll_spec(now).0
            } else {
                interval
            },
            self.poll_spec(source.items, source.exhausted, interval.delay.fires_at(now)).1,
        )
    }

    /// The items that one poll takes from the source: those that the source
    /// yields, while the source is still asked.
    pub open spec fn taken_by(self, poll: Observed<Drained<T>>) -> Seq<T> {
        if self.state == BufferState::Streaming {
            poll.source.items
        } else {
            Seq::empty()
        }
    }

    /// The items that one poll emits: those of its batch, if it emits one.
    pub open spec fn emitted_by(self, poll: Observed<Drained<T>>) -> Seq<T> {
        match self.poll_spec(poll.source.items, poll.source.exhausted, poll.fired).1.result {
            Poll::Ready(Some(batch)) => batch,
            _ => Seq::empty(),
        }
    }

    /// The stream after a run of polls.
    pub open spec fn run(self, polls: Seq<Observed<Drained<T>>>) -> BufferView<T>
        decreases polls.len(),
    {
        if polls.len() == 0 {
            self
        } else {
            self.poll_spec(polls[0].source.items, polls[0].source.exhausted, polls[0].fired).0.run(
                polls.skip(1),
            )
        }
    }

    /// All items that a run of polls takes from the source, in their order.
    pub open spec fn taken(self, polls: Seq<Observed<Drained<T>>>) -> Seq<T>
        decreases polls.len(),
    {
        if polls.len() == 0 {
            Seq::empty()
        } else {
            self.taken_by(polls[0]) + self.poll_spec(
                polls[0].source.items,
                polls[0].source.exhausted,
                polls[0].fired,
            ).0.taken(polls.skip(1))
        }
    }

    /// All items that a run of polls emits, batch after batch.
    pub open spec fn emitted(self, polls: Seq<Observed<Drained<T>>>) -> Seq<T>
        decreases polls.len(),
    {
        if polls.len() == 0 {
            Seq::empty()
        } else {
            self.emitted_by(polls[0]) + self.poll_spec(
                polls[0].source.items,
                polls[0].source.exhausted,
                polls[0].fired,
            ).0.emitted(polls.skip(1))
        }
    }

    /// Whether nothing is left to emit once the source has been flushed.
    pub open spec fn flushed_empty(self) -> bool {
        (self.state == BufferState::StreamDone || self.state == BufferState::AllDone)
            ==> self.batch.len() == 0
    }
}

/// A buffered stream neither drops nor reorders items, whatever the interval:
/// at any point of any run, the items held at the start followed by those taken
/// from the source are the items emitted so far followed by those still held.
pub proof fn lemma_buffer_keeps_every_item<T>(start: BufferView<T>, polls: Seq<Observed<Drained<T>>>)
    ensures
        start.batch + start.taken(polls) == start.emitted(polls) + start.run(polls).batch,
    decreases polls.len(),
{
    if polls.len() == 0 {
        assert(start.batch + Seq::<T>::empty() =~= Seq::<T>::empty() + start.batch);
    } else {
        let next = start.poll_spec(polls[0].source.items, polls[0].source.exhausted, polls[0].fired).0;
        lemma_buffer_keeps_every_item(next, polls.skip(1));
        let rest_taken = next.taken(polls.skip(1));
        let rest_emitted = next.emitted(polls.skip(1));
        assert(start.batch + start.taken_by(polls[0]) =~= start.emitted_by(polls[0]) + next.batch);
        assert(start.batch + (start.taken_by(polls[0]) + rest_taken) =~= (start.batch
            + start.taken_by(polls[0])) + rest_taken);
        assert((start.emitted_by(polls[0]) + next.batch) + rest_taken =~= start.emitted_by(
            polls[0],
        ) + (next.batch + rest_taken));
        assert(start.emitted_by(polls[0]) + (rest_emitted + next.run(polls.skip(1)).batch)
            =~= (start.emitted_by(polls[0]) + rest_emitted) + next.run(polls.skip(1)).batch);
    }
}

/// A run never leaves items behind once the last batch is out.
pub proof fn lemma_buffer_flushes_all<T>(start: BufferView<T>, polls: Seq<Observed<Drained<T>>>)
    requires
        start.flushed_empty(),
    ensures
        start.run(polls).flushed_empty(),
    decreases polls.len(),
{
    if polls.len() > 0 {
        let next = start.poll_spec(polls[0].source.items, polls[0].source.exhausted, polls[0].fired).0;
        lemma_buffer_flushes_all(next, polls.skip(1));
    }
}

/// Over a whole run of a new buffered stream, from the first poll to the report of
/// the end, the batches emitted hold exactly the items that the source produced,
/// in their order: the item counts are equal in particular.
pub proof fn lemma_buffer_never_loses_items<T>(polls: Seq<Observed<Drained<T>>>)
    requires
        BufferView::<T>::fresh().run(polls).state
            == BufferState::AllDone,
    ensures
        BufferView::<T>::fresh().emitted(polls)
            == BufferView::<T>::fresh().taken(
            polls,
        ),
        BufferView::<T>::fresh().emitted(
            polls,
        ).len() == BufferView::<T>::fresh().taken(
            polls,
        ).len(),
{
    let start = BufferView::<T>::fresh();
    lemma_buffer_keeps_every_item(start, polls);
    lemma_buffer_flushes_all(start, polls);
    assert(start.batch + start.taken(polls) =~= start.taken(polls));
    assert(start.emitted(polls) + start.run(polls).batch =~= start.emitted(polls));
}

impl<T> Buffer<T> {
    /// A buffered stream with an empty batch.
    pub fn new() -> (b: Buffer<T>)
        ensures
            b@ == BufferView::<T>::fresh(),
    {
        Buffer { state: BufferState::Streaming, batch: Vec::new() }
    }

    /// Whether the end of the stream has been reported.
    pub fn is_done(&self) -> (b: bool)
        ensures
            b == (self.state == BufferState::AllDone),
    {
        match self.state {
            BufferState::AllDone => true,
            _ => false,
        }
    }

    /// Starts a poll. The source is asked while it yields items; after its end
    /// only the interval is asked; after the last batch the stream ends here.
    pub fn begin(&mut self) -> (step: Step<Option<Vec<T>>>)
        requires
            old(self).state != BufferState::AllDone,
        ensures
            final(self).batch@ == old(self).batch@,
            old(self).state == BufferState::Streaming ==> final(self).state
                == BufferState::Streaming && step == Step::<Option<Vec<T>>>::Source,
            old(self).state == BufferState::Flushing ==> final(self).state
                == BufferState::Flushing && step == Step::<Option<Vec<T>>>::Signal,
            old(self).state == BufferState::StreamDone ==> final(self).state
                == BufferState::AllDone && step == Step::Done(
                Outcome::<Option<Vec<T>>>::ready(None),
            ),
    {
        match self.state {
            BufferState::Streaming => Step::Source,
            BufferState::Flushing => Step::Signal,
            _ => {
                self.state = BufferState::AllDone;
                Step::Done(Outcome::ready(None))
            },
        }
    }

    /// Takes what the source reported. An item is appended to the batch and the
    /// source is asked again; once the source is pending or exhausted the
    /// interval is asked.
    pub fn on_source(&mut self, source: Poll<Option<T>>) -> (step: Step<Option<Vec<T>>>)
        requires
            old(self).state == BufferState::Streaming,
        ensures
            source matches Poll::Ready(Some(item)) ==> final(self)@ == old(self)@.drain_spec(
                seq![item],
            ) && step == Step::<Option<Vec<T>>>::Source,
            source == Poll::Ready(None::<T>) ==> final(self)@ == old(self)@.end_spec() && step
                == Step::<Option<Vec<T>>>::Signal,
            source is Pending ==> final(self)@ == old(self)@ && step == Step::<
                Option<Vec<T>>,
            >::Signal,
    {
        match source {
            Poll::Ready(Some(item)) => {
                self.batch.push(item);
                assert(self.batch@ =~= old(self).batch@ + seq![item]);
                Step::Source
            },
            Poll::Ready(None) => {
                self.state = BufferState::Flushing;
                Step::Signal
            },
            Poll::Pending => Step::Signal,
        }
    }

    /// Takes what the interval reported and ends the poll.
    pub fn on_signal(&mut self, ticked: bool) -> (step: Step<Option<Vec<T>>>)
        requires
            old(self).state == BufferState::Streaming || old(self).state
                == BufferState::Flushing,
        ensures
            final(self)@ == old(self)@.signal_spec(ticked).0,
            step matches Step::Done(out) && batch_view(out) == old(self)@.signal_spec(ticked).1,
    {
        if let BufferState::Flushing = self.state {
            if self.batch.len() == 0 {
                self.state = BufferState::AllDone;
                return Step::Done(Outcome::ready(None));
            }
        }
        if !ticked {
            return Step::Done(Outcome::pending());
        }
        if let BufferState::Flushing = self.state {
            self.state = BufferState::StreamDone;
        }
        let mut batch: Vec<T> = Vec::new();
        core::mem::swap(&mut self.batch, &mut batch);
        Step::Done(Outcome::ready(Some(batch)))
    }

    /// Reports to the stream, one after the other, the items that the source
    /// yields in one poll, and then its end or that it is pending.
    fn drain(&mut self, items: Vec<T>, exhausted: bool)
        requires
            old(self).state == BufferState::Streaming,
        ensures
            final(self)@ == if exhausted {
                old(self)@.drain_spec(items@).end_spec()
            } else {
                old(self)@.drain_spec(items@)
            },
    {
        let ghost start = self@;
        for item in iter: items
            invariant
                iter.seq() == items@,
                start.state == BufferState::Streaming,
                self@ == start.drain_spec(items@.take(iter.index() as int)),
        {
            let _ = self.on_source(Poll::Ready(Some(item)));
            assert(self.batch@ =~= start.batch + items@.take(iter.index() + 1));
        }
        assert(items@.take(items@.len() as int) == items@);
        let last = if exhausted { Poll::Ready(None) } else { Poll::Pending };
        let _ = self.on_source(last);
    }

    /// Runs one whole poll on observations made beforehand: `items` are what the
    /// source yields in this poll if it is asked, `exhausted` says whether it then
    /// reports its end, and `ticked` is what the interval would report if asked.
    pub fn poll_with(&mut self, items: Vec<T>, exhausted: bool, ticked: bool) -> (out: Outcome<
        Option<Vec<T>>,
    >)
        requires
            old(self).state != BufferState::AllDone,
        ensures
            (final(self)@, batch_view(out)) == old(self)@.poll_spec(items@, exhausted, ticked),
    {
        let first = self.begin();
        if let Step::Done(out) = first {
            return out;
        }
        if let Step::Source = first {
            self.drain(items, exhausted);
        }
        match self.on_signal(ticked) {
            Step::Done(out) => out,
            _ => Outcome::pending(),
        }
    }

    /// Runs one whole poll at the clock reading `now`, with `interval` giving the
    /// ticks. `items` are what the source yields in this poll if it is asked, and
    /// `exhausted` says whether it then reports its end.
    pub fn poll_at(&mut self, interval: &mut Interval, now: Instant, items: Vec<T>, exhausted: bool)
        -> (out: Outcome<Option<Vec<T>>>)
        requires
            old(self).state != BufferState::AllDone,
        ensures
            (final(self)@, *final(interval), batch_view(out)) == old(self)@.poll_at_spec(
                *old(interval),
                now,
                Drained { items: items@, exhausted },
            ),
    {
        let first = self.begin();
        if let Step::Done(out) = first {
            return out;
        }
        if let Step::Source = first {
            self.drain(items, exhausted);
        }
        let ticked = interval.poll_next(now).is_ready();
        match self.on_signal(ticked) {
            Step::Done(out) => out,
            _ => Outcome::pending(),
        }
    }
}

} // verus!
