use vstd::prelude::*;
use crate::time::Instant;

verus! {

/// The result of polling a future or a stream once.
///
/// A stream reports `Ready(Some(item))` for an item and `Ready(None)` when it is
/// exhausted.
#[derive(Debug, PartialEq, Eq)]
pub enum Poll<T> {
    /// The value is there.
    Ready(T),
    /// Nothing yet: poll again after a wake-up.
    Pending,
}

impl<T> Poll<T> {
    /// Whether the value is there.
    pub fn is_ready(&self) -> (b: bool)
        ensures
            b == (self is Ready),
    {
        match self {
            Poll::Ready(_) => true,
            Poll::Pending => false,
        }
    }

    /// Whether the value is still awaited.
    pub fn is_pending(&self) -> (b: bool)
        ensures
            b == (self is Pending),
    {
        match self {
            Poll::Ready(_) => false,
            Poll::Pending => true,
        }
    }
}

/// How one poll of a combinator ends.
#[derive(Debug, PartialEq, Eq)]
pub struct Outcome<T> {
    /// What the combinator reports to whoever polled it.
    pub result: Poll<T>,
    /// Whether the combinator's timer is to be armed anew before the next poll.
    pub rearm: bool,
    /// Whether the combinator asks to be polled again without waiting for an event.
    pub wake: bool,
}

impl<T> Outcome<T> {
    /// The outcome that reports `value` and asks for nothing else.
    pub open spec fn ready_spec(value: T) -> Outcome<T> {
        Outcome { result: Poll::Ready(value), rearm: false, wake: false }
    }

    /// The outcome that reports nothing yet and asks for nothing else.
    pub open spec fn pending_spec() -> Outcome<T> {
        Outcome { result: Poll::Pending, rearm: false, wake: false }
    }

    /// The outcome that reports `value` and asks for nothing else.
    #[verifier::when_used_as_spec(ready_spec)]
    pub fn ready(value: T) -> (o: Outcome<T>)
        ensures
            o == Outcome::ready_spec(value),
    {
        Outcome { result: Poll::Ready(value), rearm: false, wake: false }
    }

    /// The outcome that reports nothing yet and asks for nothing else.
    #[verifier::when_used_as_spec(pending_spec)]
    pub fn pending() -> (o: Outcome<T>)
        ensures
            o == Outcome::<T>::pending_spec(),
    {
        Outcome { result: Poll::Pending, rearm: false, wake: false }
    }
}

/// What a combinator asks of its driver in the course of one poll.
///
/// A poll starts with the combinator's `begin`. The driver then does what each
/// step asks and reports back, until a step is `Done`.
#[derive(Debug, PartialEq, Eq)]
pub enum Step<T> {
    /// Poll the wrapped future or stream and report with `on_source`.
    Source,
    /// Poll the deadline, the interval or the notification channel and report
    /// with `on_signal`.
    Signal,
    /// The poll is over.
    Done(Outcome<T>),
}

/// What one poll observes: what the source reports if it is asked, and whether
/// the deadline or the interval reports that it has fired if it is asked.
pub struct Observed<S> {
    /// What the source reports.
    pub source: S,
    /// Whether the deadline or the interval has fired.
    pub fired: bool,
}

/// What one poll observes, together with the clock reading at which it is made.
pub struct Timed<E> {
    /// The clock reading of the poll.
    pub now: Instant,
    /// What the poll observes.
    pub event: E,
}

/// What a source reports to a poll that drains it: some items, and then either
/// its end or that it is pending.
pub struct Drained<T> {
    /// The items that the source yields in this poll, in their order.
    pub items: Seq<T>,
    /// Whether the source then reports its end; otherwise it is pending.
    pub exhausted: bool,
}

/// The error of an operation whose deadline elapsed before it completed.
#[derive(Clone, Copy, Debug, PartialEq, Eq, Structural)]
pub struct TimeoutError {}

impl TimeoutError {
    /// What a user is told of this error.
    pub fn message(&self) -> (s: &'static str)
        ensures
            s@ == "future has timed out"@,
    {
        "future has timed out"
    }
}

} // verus!
