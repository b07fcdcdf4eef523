use vstd::prelude::*;
use crate::poll::{Observed, Outcome, Poll, Step, Timed};
use crate::task::timer::Timer;
use crate::time::{Duration, Instant};

verus! {

/// Where a debounced stream stands.
#[derive(Clone, Copy, Debug, PartialEq, Eq, Structural)]
pub enum DebounceState {
    /// Items are awaited.
    Streaming,
    /// The source is exhausted and its last item has been flushed; the next poll
    /// reports the end of the stream.
    Flushed,
    /// The end of the stream has been reported. Polling again is a contract
    /// violation.
    Done,
}

/// A stream that lets an item through only after a quiet period without a newer one.
///
/// Each item from the source replaces the one held back and starts the quiet
/// period anew. When the quiet period ends, or the source is exhausted, the item
/// held back is emitted.
#[derive(Debug, PartialEq, Eq)]
pub struct Debounce<T> {
    /// Where the stream stands.
    pub state: DebounceState,
    /// The item held back, if any.
    pub slot: Option<T>,
}

impl<T> Debounce<T> {
    /// What one poll does, given what the source reports if it is asked and whether
    /// the quiet-period timer reports that it has fired if it is asked.
    pub open spec fn poll_spec(self, source: Poll<Option<T>>, fired: bool) -> (
        Debounce<T>,
        Outcome<Option<T>>,
    ) {
        if self.state != DebounceState::Streaming {
            (Debounce { state: DebounceState::Done, slot: self.slot }, Outcome::ready(None))
        } else {
            match source {
                Poll::Ready(Some(item)) => (
                    Debounce { state: DebounceState::Streaming, slot: Some(item) },
                    Outcome { result: Poll::Pending, rearm: true, wake: true },
                ),
                Poll::Ready(None) => match self.slot {
                    Some(held) => (
                        Debounce { state: DebounceState::Flushed, slot: None },
                        Outcome::ready(Some(held)),
                    ),
                    None => (
                        Debounce { state: DebounceState::Done, slot: None },
                        Outcome::ready(None),
                    ),
                },
                Poll::Pending => if fired && self.slot is Some {
                    (
                        Debounce { state: DebounceState::Streaming, slot: None },
                        Outcome::ready(Some(self.slot->0)),
                    )
                } else {
                    (self, Outcome::pending())
                },
            }
        }
    }

    /// The stream that holds nothing back yet.
    pub open spec fn fresh() -> Debounce<T> {
        Debounce { state: DebounceState::Streaming, slot: None }
    }

    /// The stream after a run of polls.
    pub open spec fn run(self, polls: Seq<Observed<Poll<Option<T>>>>) -> Debounce<T>
        decreases polls.len(),
    {
        if polls.len() == 0 {
            self
        } else {
            self.run(polls.drop_last()).poll_spec(polls.last().source, polls.last().fired).0
        }
    }

    /// What the poll with index `i` of a run reports.
    pub open spec fn outcome_at(self, polls: Seq<Observed<Poll<Option<T>>>>, i: int) -> Outcome<
        Option<T>,
    > {
        self.run(polls.take(i)).poll_spec(polls[i].source, polls[i].fired).1
    }

    /// The items that a run of polls emits, in their order.
    pub open spec fn emitted(self, polls: Seq<Observed<Poll<Option<T>>>>) -> Seq<T>
        decreases polls.len(),
    {
        if polls.len() == 0 {
            Seq::empty()
        } else {
            self.emitted(polls.drop_last()) + emission(
                self.run(polls.drop_last()).poll_spec(polls.last().source, polls.last().fired).1,
            )
        }
    }

    /// The items that a run of polls takes from the source, in their order. The
    /// source is asked only until it has reported its end.
    pub open spec fn taken(self, polls: Seq<Observed<Poll<Option<T>>>>) -> Seq<T>
        decreases polls.len(),
    {
        if polls.len() == 0 {
            Seq::empty()
        } else {
            self.taken(polls.drop_last()) + if self.run(polls.drop_last()).state
                == DebounceState::Streaming {
                yielded(polls.last().source)
            } else {
                Seq::empty()
            }
        }
    }

    /// The item held back, as a sequence of one item or none.
    pub open spec fn held(self) -> Seq<T> {
        match self.slot {
            Some(item) => seq![item],
            None => Seq::empty(),
        }
    }

    /// What one poll at the clock reading `now` does where the quiet period is
    /// `quiet` and `timer` measures it: the timer is polled only while the source
    /// is pending and an item is held back, and an item arms it for one quiet
    /// period from `now`.
    pub open spec fn poll_at_spec(
        self,
        timer: Timer,
        quiet: Duration,
        now: Instant,
        source: Poll<Option<T>>,
    ) -> (Debounce<T>, Timer, Outcome<Option<T>>) {
        (
            self.poll_spec(source, timer.fires_at(now)).0,
            if self.state != DebounceState::Streaming {
                timer
            } else if source is Pending {
                if self.slot is Some {
                    timer.poll_spec(now).0
                } else {
                    timer
                }
            } else if source == Poll::Ready(None::<T>) {
                timer
            } else {
                Timer::after_spec(now, quiet)
            },
            self.poll_spec(source, timer.fires_at(now)).1,
        )
    }

    /// The items that a run of polls emits, in their order.
    pub open spec fn emitted_at(
        self,
        timer: Timer,
        quiet: Duration,
        polls: Seq<Timed<Poll<Option<T>>>>,
    ) -> Seq<T>
        decreases polls.len(),
    {
        if polls.len() == 0 {
            Seq::empty()
        } else {
            let after = self.poll_at_spec(timer, quiet, polls[0].now, polls[0].event);
            emission(after.2) + after.0.emitted_at(after.1, quiet, polls.skip(1))
        }
    }

    /// A debounced stream that holds nothing back yet.
    pub fn new() -> (d: Debounce<T>)
        ensures
            d == Debounce::<T>::fresh(),
    {
        Debounce { state: DebounceState::Streaming, slot: None }
    }

    /// Whether the end of the stream has been reported.
    pub fn is_done(&self) -> (b: bool)
        ensures
            b == (self.state == DebounceState::Done),
    {
        match self.state {
            DebounceState::Done => true,
            _ => false,
        }
    }

    /// Starts a poll. After the flush the stream ends here; otherwise the source is
    /// asked.
    pub fn begin(&mut self) -> (step: Step<Option<T>>)
        requires
            old(self).state != DebounceState::Done,
        ensures
            old(self).state == DebounceState::Streaming ==> *final(self) == *old(self) && step
                == Step::<Option<T>>::Source,
            old(self).state == DebounceState::Flushed ==> *final(self) == (Debounce {
                state: DebounceState::Done,
                slot: old(self).slot,
            }) && step == Step::Done(Outcome::<Option<T>>::ready(None)),
    {
        match self.state {
            DebounceState::Streaming => Step::Source,
            _ => {
                self.state = DebounceState::Done;
                Step::Done(Outcome::ready(None))
            },
        }
    }

    /// Takes what the source reported.
    ///
    /// An item goes into the slot in place of the one held back, arms the timer
    /// anew, and is not emitted by this poll. At the end of the source the item
    /// held back is flushed, or the end is reported at once where nothing is held
    /// back. While the source is pending and an item is held back the timer is
    /// asked; with an empty slot there is nothing that the timer could release,
    /// and the poll ends.
    pub fn on_source(&mut self, source: Poll<Option<T>>) -> (step: Step<Option<T>>)
        requires
            old(self).state == DebounceState::Streaming,
        ensures
            source is Pending ==> *final(self) == *old(self),
            source is Pending && old(self).slot is Some ==> step == Step::<Option<T>>::Signal,
            source is Pending && old(self).slot is None ==> step == Step::Done(
                Outcome::<Option<T>>::pending(),
            ),
            source is Ready ==> *final(self) == old(self).poll_spec(source, false).0 && step
                == Step::Done(old(self).poll_spec(source, false).1),
    {
        match source {
            Poll::Ready(Some(item)) => {
                self.slot = Some(item);
                Step::Done(Outcome { result: Poll::Pending, rearm: true, wake: true })
            },
            Poll::Ready(None) => match self.slot.take() {
                Some(held) => {
                    self.state = DebounceState::Flushed;
                    Step::Done(Outcome::ready(Some(held)))
                },
                None => {
                    self.state = DebounceState::Done;
                    Step::Done(Outcome::ready(None))
                },
            },
            Poll::Pending => if self.slot.is_some() {
                Step::Signal
            } else {
                Step::Done(Outcome::pending())
            },
        }
    }

    /// Takes what the timer reported while the source was pending. A timer that
    /// has fired releases the item held back; with an empty slot it releases nothing.
    pub fn on_signal(&mut self, fired: bool) -> (step: Step<Option<T>>)
        requires
            old(self).state == DebounceState::Streaming,
        ensures
            *final(self) == old(self).poll_spec(Poll::Pending, fired).0,
            step == Step::Done(old(self).poll_spec(Poll::Pending, fired).1),
    {
        if fired {
            match self.slot.take() {
                Some(held) => Step::Done(Outcome::ready(Some(held))),
                None => Step::Done(Outcome::pending()),
            }
        } else {
            Step::Done(Outcome::pending())
        }
    }

    /// Runs one whole poll on observations made beforehand: `source` is what the
    /// source would report if asked, `fired` what the timer would.
    pub fn poll_with(&mut self, source: Poll<Option<T>>, fired: bool) -> (out: Outcome<
        Option<T>,
    >)
        requires
            old(self).state != DebounceState::Done,
        ensures
            (*final(self), out) == old(self).poll_spec(source, fired),
    {
        match self.begin() {
            Step::Done(out) => out,
            _ => match self.on_source(source) {
                Step::Done(out) => out,
                _ => match self.on_signal(fired) {
                    Step::Done(out) => out,
                    _ => Outcome::pending(),
                },
            },
        }
    }
}

impl<T> Debounce<T> {
    /// Runs one whole poll at the clock reading `now`, with `timer` measuring the
    /// quiet period `quiet`. `source` is what the source reports.
    pub fn poll_at(
        &mut self,
        timer: &mut Timer,
        quiet: Duration,
        now: Instant,
        source: Poll<Option<T>>,
    ) -> (out: Outcome<Option<T>>)
        requires
            old(self).state != DebounceState::Done,
        ensures
            (*final(self), *final(timer), out) == old(self).poll_at_spec(
                *old(timer),
                quiet,
                now,
                source,
            ),
    {
        if let Step::Done(out) = self.begin() {
            return out;
        }
        let out = match self.on_source(source) {
            Step::Done(out) => out,
            _ => {
                let fired = timer.poll_fired(now).is_ready();
                match self.on_signal(fired) {
                    Step::Done(out) => out,
                    _ => Outcome::pending(),
                }
            },
        };
        if out.rearm {
            timer.set_after(now, quiet);
        }
        out
    }
}

/// The item that a stream yields at a poll, as a sequence of one item or none.
pub open spec fn yielded<T>(result: Poll<Option<T>>) -> Seq<T> {
    match result {
        Poll::Ready(Some(item)) => seq![item],
        _ => Seq::empty(),
    }
}

/// The item that a poll emits, as a sequence of one item or none.
pub open spec fn emission<T>(out: Outcome<Option<T>>) -> Seq<T> {
    yielded(out.result)
}

/// The items that the source yields in the course of a run, in their order.
pub open spec fn items_of<T>(polls: Seq<Timed<Poll<Option<T>>>>) -> Seq<T>
    decreases polls.len(),
{
    if polls.len() == 0 {
        Seq::empty()
    } else {
        yielded(polls[0].event) + items_of(
            polls.skip(1),
        )
    }
}

/// Whether a run is a whole one: its last poll, and none before it, finds the
/// source exhausted.
pub open spec fn ends_with_exhaustion<T>(polls: Seq<Timed<Poll<Option<T>>>>) -> bool {
    &&& polls.len() > 0
    &&& polls.last().event == Poll::Ready(None::<T>)
    &&& forall|i: int|
        0 <= i < polls.len() - 1 ==> (#[trigger] polls[i]).event != Poll::Ready(None::<T>)
}

/// Whether the items of a run come faster than the quiet period: no poll that
/// finds the source pending is made a quiet period or more after the latest
/// item. `latest` is when the latest item before the run arrived, if any did.
pub open spec fn rapid<T>(
    latest: Option<Instant>,
    quiet: Duration,
    polls: Seq<Timed<Poll<Option<T>>>>,
) -> bool
    decreases polls.len(),
{
    if polls.len() == 0 {
        true
    } else {
        match polls[0].event {
            Poll::Ready(Some(_)) => rapid(Some(polls[0].now), quiet, polls.skip(1)),
            Poll::Ready(None) => rapid(latest, quiet, polls.skip(1)),
            Poll::Pending => (latest matches Some(arrival) ==> !Timer::after_spec(
                arrival,
                quiet,
            ).fires_at(polls[0].now)) && rapid(latest, quiet, polls.skip(1)),
        }
    }
}

/// Whether the items of a run are spaced wider than the quiet period: an item
/// arrives only after a poll has found the source pending a quiet period or more
/// after the item before it. `held` is when the item arrived that is being held
/// back as the run starts, if one is.
pub open spec fn spaced<T>(
    held: Option<Instant>,
    quiet: Duration,
    polls: Seq<Timed<Poll<Option<T>>>>,
) -> bool
    decreases polls.len(),
{
    if polls.len() == 0 {
        true
    } else {
        match polls[0].event {
            Poll::Ready(Some(_)) => held is None && spaced(
                Some(polls[0].now),
                quiet,
                polls.skip(1),
            ),
            Poll::Ready(None) => spaced(held, quiet, polls.skip(1)),
            Poll::Pending => spaced(
                if held matches Some(arrival) && Timer::after_spec(arrival, quiet).fires_at(
                    polls[0].now,
                ) {
                    None
                } else {
                    held
                },
                quiet,
                polls.skip(1),
            ),
        }
    }
}

/// The item held back is always the latest that the source has yielded: at any
/// point of any run, whatever the timer does, a filled slot holds the last of
/// the items taken so far, or the item held at the start where none was taken.
pub proof fn lemma_debounce_holds_latest<T>(
    start: Debounce<T>,
    polls: Seq<Observed<Poll<Option<T>>>>,
)
    ensures
        start.run(polls).slot matches Some(item) ==> (start.held() + start.taken(polls)).len() > 0
            && item == (start.held() + start.taken(polls)).last(),
    decreases polls.len(),
{
    if polls.len() > 0 {
        lemma_debounce_holds_latest(start, polls.drop_last());
    }
}

/// Each emission is the most recent item: where the poll with index `i` of a run
/// emits an item, that item is the last that the source had yielded before the
/// poll, or the item held at the start where the source had yielded none.
pub proof fn lemma_debounce_emits_latest<T>(
    start: Debounce<T>,
    polls: Seq<Observed<Poll<Option<T>>>>,
    i: int,
)
    requires
        0 <= i < polls.len(),
        start.outcome_at(polls, i).result matches Poll::Ready(Some(_)),
    ensures
        (start.held() + start.taken(polls.take(i))).len() > 0,
        start.outcome_at(polls, i).result == Poll::Ready(
            Some((start.held() + start.taken(polls.take(i))).last()),
        ),
{
    lemma_debounce_holds_latest(start, polls.take(i));
}

/// A debounced stream makes up no items: at any point of any run, the items
/// emitted and the one still held back are no more than the items taken from the
/// source and the one held at the start.
pub proof fn lemma_debounce_emits_no_more<T>(
    start: Debounce<T>,
    polls: Seq<Observed<Poll<Option<T>>>>,
)
    ensures
        start.emitted(polls).len() + start.run(polls).held().len() <= start.held().len()
            + start.taken(polls).len(),
    decreases polls.len(),
{
    if polls.len() > 0 {
        lemma_debounce_emits_no_more(start, polls.drop_last());
    }
}

/// Of a burst only the last item comes out: where the source yields at least
/// one item and then ends, and the items come faster than the quiet period, a new
/// debounced stream emits exactly one item over the whole run, the last that the
/// source yielded. What the timer was armed for before the first item makes no
/// difference.
pub proof fn lemma_debounce_burst_emits_last<T>(
    timer: Timer,
    quiet: Duration,
    polls: Seq<Timed<Poll<Option<T>>>>,
)
    requires
        ends_with_exhaustion(polls),
        rapid(None, quiet, polls),
        items_of(polls).len() > 0,
    ensures
        Debounce::<T>::fresh().emitted_at(timer, quiet, polls) == seq![items_of(polls).last()],
{
    lemma_burst(None, timer, None, quiet, polls);
}

proof fn lemma_burst<T>(
    slot: Option<T>,
    timer: Timer,
    latest: Option<Instant>,
    quiet: Duration,
    polls: Seq<Timed<Poll<Option<T>>>>,
)
    requires
        ends_with_exhaustion(polls),
        rapid(latest, quiet, polls),
        slot is Some ==> latest is Some && timer == Timer::after_spec(latest->0, quiet),
    ensures
        (Debounce { state: DebounceState::Streaming, slot }).emitted_at(timer, quiet, polls) == if
            items_of(polls).len() > 0 {
            seq![items_of(polls).last()]
        } else {
            match slot {
                Some(held) => seq![held],
                None => Seq::empty(),
            }
        },
    decreases polls.len(),
{
    let stream = Debounce { state: DebounceState::Streaming, slot };
    let after = stream.poll_at_spec(timer, quiet, polls[0].now, polls[0].event);
    let rest = polls.skip(1);
    if polls.len() == 1 {
        assert(polls[0] == polls.last());
        assert(rest.len() == 0);
        assert(items_of(rest).len() == 0);
        assert(after.0.emitted_at(after.1, quiet, rest) =~= Seq::<T>::empty());
        assert(items_of(polls) =~= Seq::<T>::empty());
        assert(stream.emitted_at(timer, quiet, polls) =~= emission(after.2));
    } else {
        assert(rest.last() == polls.last());
        assert forall|i: int| 0 <= i < rest.len() - 1 implies (#[trigger] rest[i]).event
            != Poll::Ready(None::<T>) by {
            assert(rest[i] == polls[i + 1]);
        }
        assert(polls[0].event != Poll::Ready(None::<T>));
        match polls[0].event {
            Poll::Ready(Some(item)) => {
                lemma_burst(Some(item), after.1, Some(polls[0].now), quiet, rest);
                assert(items_of(polls) =~= seq![item] + items_of(rest));
                assert(stream.emitted_at(timer, quiet, polls) =~= after.0.emitted_at(
                    after.1,
                    quiet,
                    rest,
                ));
            },
            Poll::Ready(None) => {},
            Poll::Pending => {
                lemma_burst(after.0.slot, after.1, latest, quiet, rest);
                assert(items_of(polls) =~= items_of(rest));
                assert(stream.emitted_at(timer, quiet, polls) =~= after.0.emitted_at(
                    after.1,
                    quiet,
                    rest,
                ));
            },
        }
    }
}

/// Items that are far enough apart all come out: where the source yields its
/// items spaced wider than the quiet period and then ends, a new debounced stream
/// emits over the whole run every item that the source yielded, unchanged and in
/// the same order. What the timer was armed for before the first item makes no
/// difference.
pub proof fn lemma_debounce_spaced_emits_all<T>(
    timer: Timer,
    quiet: Duration,
    polls: Seq<Timed<Poll<Option<T>>>>,
)
    requires
        ends_with_exhaustion(polls),
        spaced(None, quiet, polls),
    ensures
        Debounce::<T>::fresh().emitted_at(timer, quiet, polls) == items_of(polls),
        Debounce::<T>::fresh().emitted_at(timer, quiet, polls).len() == items_of(polls).len(),
{
    lemma_spaced(None, timer, None, quiet, polls);
    assert(Seq::<T>::empty() + items_of(polls) =~= items_of(polls));
}

proof fn lemma_spaced<T>(
    slot: Option<T>,
    timer: Timer,
    held: Option<Instant>,
    quiet: Duration,
    polls: Seq<Timed<Poll<Option<T>>>>,
)
    requires
        ends_with_exhaustion(polls),
        spaced(held, quiet, polls),
        slot is Some <==> held is Some,
        slot is Some ==> timer == Timer::after_spec(held->0, quiet),
    ensures
        (Debounce { state: DebounceState::Streaming, slot }).emitted_at(timer, quiet, polls)
            == (match slot {
            Some(item) => seq![item],
            None => Seq::empty(),
        }) + items_of(polls),
    decreases polls.len(),
{
    let stream = Debounce { state: DebounceState::Streaming, slot };
    let after = stream.poll_at_spec(timer, quiet, polls[0].now, polls[0].event);
    let rest = polls.skip(1);
    let held_seq = match slot {
        Some(item) => seq![item],
        None => Seq::empty(),
    };
    if polls.len() == 1 {
        assert(polls[0] == polls.last());
        assert(rest.len() == 0);
        assert(after.0.emitted_at(after.1, quiet, rest) =~= Seq::<T>::empty());
        assert(items_of(rest) =~= Seq::<T>::empty());
        assert(items_of(polls) =~= Seq::<T>::empty());
        assert(stream.emitted_at(timer, quiet, polls) =~= held_seq + items_of(polls));
    } else {
        assert(rest.last() == polls.last());
        assert forall|i: int| 0 <= i < rest.len() - 1 implies (#[trigger] rest[i]).event
            != Poll::Ready(None::<T>) by {
            assert(rest[i] == polls[i + 1]);
        }
        assert(polls[0].event != Poll::Ready(None::<T>));
        match polls[0].event {
            Poll::Ready(Some(item)) => {
                lemma_spaced(Some(item), after.1, Some(polls[0].now), quiet, rest);
                assert(stream.emitted_at(timer, quiet, polls) =~= held_seq + items_of(polls));
            },
            Poll::Ready(None) => {},
            Poll::Pending => {
                let still = if held matches Some(arrival) && Timer::after_spec(
                    arrival,
                    quiet,
                ).fires_at(polls[0].now) {
                    None
                } else {
                    held
                };
                lemma_spaced(after.0.slot, after.1, still, quiet, rest);
                assert(stream.emitted_at(timer, quiet, polls) =~= held_seq + items_of(polls));
            },
        }
    }
}

} // verus!
