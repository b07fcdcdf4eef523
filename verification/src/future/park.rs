use vstd::prelude::*;
use crate::poll::{Outcome, Poll, Step};

verus! {

/// A token sent to a parked future over its notification channel.
#[derive(Clone, Copy, Debug, PartialEq, Eq, Structural)]
pub enum Token {
    /// Stop polling the future.
    Pause,
    /// Poll the future again.
    Resume,
}

/// A future that is polled only while it is not paused.
///
/// The wrapper starts out suspended. Tokens from a notification channel pause and
/// resume it; while it is suspended the future is never polled. Once the channel
/// is closed no token can come any more, and the future is polled to completion.
#[derive(Clone, Copy, Debug, PartialEq, Eq, Structural)]
pub enum Park {
    /// The future is polled.
    Active,
    /// The future is paused; only the channel is polled.
    Suspended,
    /// The channel is closed; only the future is polled.
    NoChannel,
    /// The future's value has been delivered. Polling again is a contract
    /// violation.
    Completed,
}

impl Park {
    /// What the wrapper asks for at the start of a poll: the channel while there
    /// is one, else the future.
    pub open spec fn begin_spec<T>(self) -> Step<T> {
        if self == Park::NoChannel {
            Step::Source
        } else {
            Step::Signal
        }
    }

    /// What a report of the channel does to the wrapper and what it asks for next.
    ///
    /// A pause token suspends the wrapper and ends the poll; the wrapper asks to be
    /// polled again, since the channel has not been left waiting. A resume token
    /// makes a suspended wrapper active, and the channel is asked once more. A
    /// closed channel leads to the future. With nothing new on the channel a
    /// suspended wrapper waits and an active one polls the future.
    pub open spec fn signal_spec<T>(self, tokens: Poll<Option<Token>>) -> (Park, Step<T>) {
        match tokens {
            Poll::Ready(Some(Token::Pause)) => (
                Park::Suspended,
                Step::Done(Outcome { result: Poll::Pending, rearm: false, wake: true }),
            ),
            Poll::Ready(None) => (Park::NoChannel, Step::Source),
            Poll::Ready(Some(Token::Resume)) => if self == Park::Suspended {
                (Park::Active, Step::Signal)
            } else {
                (self, Step::Source)
            },
            Poll::Pending => if self == Park::Suspended {
                (self, Step::Done(Outcome::pending()))
            } else {
                (self, Step::Source)
            },
        }
    }

    /// What a report of the future does: a value completes the wrapper and is
    /// delivered unchanged.
    pub open spec fn source_spec<T>(self, source: Poll<T>) -> (Park, Step<T>) {
        match source {
            Poll::Ready(value) => (Park::Completed, Step::Done(Outcome::ready(value))),
            Poll::Pending => (self, Step::Done(Outcome::pending())),
        }
    }

    /// A wrapper that waits for its first token.
    pub fn new() -> (p: Park)
        ensures
            p == Park::Suspended,
    {
        Park::Suspended
    }

    /// Whether the future's value has been delivered.
    pub fn is_completed(&self) -> (b: bool)
        ensures
            b == (*self == Park::Completed),
    {
        match self {
            Park::Completed => true,
            _ => false,
        }
    }

    /// Starts a poll.
    pub fn begin<T>(&mut self) -> (step: Step<T>)
        requires
            *old(self) != Park::Completed,
        ensures
            *final(self) == *old(self),
            step == old(self).begin_spec::<T>(),
    {
        match self {
            Park::NoChannel => Step::Source,
            _ => Step::Signal,
        }
    }

    /// Takes what the notification channel reported: a token, nothing new, or
    /// `Ready(None)` for a closed channel.
    pub fn on_signal<T>(&mut self, tokens: Poll<Option<Token>>) -> (step: Step<T>)
        requires
            *old(self) == Park::Active || *old(self) == Park::Suspended,
        ensures
            (*final(self), step) == old(self).signal_spec::<T>(tokens),
    {
        match tokens {
            Poll::Ready(Some(Token::Pause)) => {
                *self = Park::Suspended;
                Step::Done(Outcome { result: Poll::Pending, rearm: false, wake: true })
            },
            Poll::Ready(None) => {
                *self = Park::NoChannel;
                Step::Source
            },
            Poll::Ready(Some(Token::Resume)) => match self {
                Park::Suspended => {
                    *self = Park::Active;
                    Step::Signal
                },
                _ => Step::Source,
            },
            Poll::Pending => match self {
                Park::Suspended => Step::Done(Outcome::pending()),
                _ => Step::Source,
            },
        }
    }

    /// Takes what the future reported.
    pub fn on_source<T>(&mut self, source: Poll<T>) -> (step: Step<T>)
        requires
            *old(self) == Park::Active || *old(self) == Park::NoChannel,
        ensures
            (*final(self), step) == old(self).source_spec(source),
    {
        match source {
            Poll::Ready(value) => {
                *self = Park::Completed;
                Step::Done(Outcome::ready(value))
            },
            Poll::Pending => Step::Done(Outcome::pending()),
        }
    }
}

/// While the wrapper is suspended the future is not polled: a poll starts with the
/// channel, and from a suspended wrapper the channel's report leads to the future
/// only where the channel is closed. A resume token makes the wrapper active
/// first, and the channel is asked again.
pub proof fn lemma_suspended_never_polls_future<T>(tokens: Poll<Option<Token>>)
    ensures
        Park::Suspended.begin_spec::<T>() == Step::<T>::Signal,
        Park::Suspended.signal_spec::<T>(tokens).1 == Step::<T>::Source ==> tokens
            == Poll::Ready(None::<Token>) && Park::Suspended.signal_spec::<T>(tokens).0
            == Park::NoChannel,
        tokens == Poll::Ready(Some(Token::Resume)) ==> Park::Suspended.signal_spec::<T>(tokens)
            == (Park::Active, Step::<T>::Signal),
        Park::Suspended.signal_spec::<T>(tokens).0 == Park::Suspended ==> Park::Suspended.signal_spec::<
            T,
        >(tokens).1 is Done,
{
}

/// A pause token suspends the wrapper, whatever it was doing, without a poll of
/// the future.
pub proof fn lemma_pause_suspends<T>(park: Park)
    ensures
        park.signal_spec::<T>(Poll::Ready(Some(Token::Pause))).0 == Park::Suspended,
        park.signal_spec::<T>(Poll::Ready(Some(Token::Pause))).1 is Done,
{
}

/// A closed channel fails open: from then on each poll goes to the future and
/// delivers what the future reports.
pub proof fn lemma_closed_channel_fails_open<T>(park: Park, source: Poll<T>)
    ensures
        park.signal_spec::<T>(Poll::Ready(None)) == (Park::NoChannel, Step::<T>::Source),
        Park::NoChannel.begin_spec::<T>() == Step::<T>::Source,
        source matches Poll::Ready(value) ==> Park::NoChannel.source_spec(source) == (
            Park::Completed,
            Step::Done(Outcome::ready(value)),
        ),
        source is Pending ==> Park::NoChannel.source_spec(source).0 == Park::NoChannel,
{
}

} // verus!
