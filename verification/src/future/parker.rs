use vstd::prelude::*;
use async_channel::{Receiver, Sender};
use crate::channel::{
    bounded_tokens,
    clone_sender,
    receiver_capacity,
    sender_capacity,
    try_recv_token,
    try_send_token,
    RecvAttempt,
    SendAttempt,
};
use crate::poll::Poll;

verus! {

/// How many tokens a parker holds at most.
pub const TOKENS: usize = 1;

/// The side of a parking pair that waits for a token.
///
/// A parker has one token slot, which is empty at first. Parking takes the token
/// out if one is there, and waits otherwise. Parking also ends when no unparker
/// is left that could bring a token.
pub struct Parker {
    chan: Receiver<()>,
}

/// The side of a parking pair that brings the token.
pub struct Unparker {
    chan: Sender<()>,
}

/// What a call of [`Unparker::unpark`] did.
#[derive(Clone, Copy, Debug, PartialEq, Eq, Structural)]
pub enum Unparked {
    /// The slot was empty, and the token is in it now.
    Deposited,
    /// A token was in the slot already; none is queued behind it.
    AlreadyPending,
    /// No parker is left to wake.
    NoParker,
}

/// What an unpark attempt amounts to, by what the channel found. In each case
/// the unparker is done at once: it never has to wait for room.
pub open spec fn unparked_spec(attempt: SendAttempt) -> Unparked {
    match attempt {
        SendAttempt::Sent => Unparked::Deposited,
        SendAttempt::Full => Unparked::AlreadyPending,
        SendAttempt::Closed => Unparked::NoParker,
    }
}

/// Whether parking ends, by what the channel found: it ends with a token and
/// with a closed channel, and goes on waiting at an empty one.
pub open spec fn parked_spec(attempt: RecvAttempt) -> Poll<()> {
    match attempt {
        RecvAttempt::Received => Poll::Ready(()),
        RecvAttempt::Closed => Poll::Ready(()),
        RecvAttempt::Empty => Poll::Pending,
    }
}

/// What an unpark attempt amounts to, by what the channel found.
#[verifier::when_used_as_spec(unparked_spec)]
pub fn unparked(attempt: SendAttempt) -> (done: Unparked)
    ensures
        done == unparked_spec(attempt),
{
    match attempt {
        SendAttempt::Sent => Unparked::Deposited,
        SendAttempt::Full => Unparked::AlreadyPending,
        SendAttempt::Closed => Unparked::NoParker,
    }
}

/// Whether parking ends, by what the channel found.
#[verifier::when_used_as_spec(parked_spec)]
pub fn parked(attempt: RecvAttempt) -> (woken: Poll<()>)
    ensures
        woken == parked_spec(attempt),
{
    match attempt {
        RecvAttempt::Received => Poll::Ready(()),
        RecvAttempt::Closed => Poll::Ready(()),
        RecvAttempt::Empty => Poll::Pending,
    }
}

/// A new parking pair with an empty token slot. The slot has room for one token
/// and no more, whichever side looks at it.
pub fn parker() -> (pair: (Parker, Unparker))
    ensures
        pair.0.capacity() == Some(TOKENS),
        pair.1.capacity() == Some(TOKENS),
{
    let (sender, receiver) = bounded_tokens(TOKENS);
    (Parker { chan: receiver }, Unparker { chan: sender })
}

impl Parker {
    /// Tries to park without waiting: takes the token if one is there. `Pending`
    /// says that the slot is empty and an unparker is left, so that the caller
    /// has to wait; the result is that of [`parked`] on what the channel found.
    pub fn try_park(&self) -> (woken: Poll<()>) {
        parked(try_recv_token(&self.chan))
    }

    /// The channel that carries the token, for a caller that waits on it.
    pub fn channel(&self) -> (chan: &Receiver<()>)
        ensures
            *chan == self.receiver(),
    {
        &self.chan
    }

    /// The receiving side of the channel that this handle holds.
    pub closed spec fn receiver(self) -> Receiver<()> {
        self.chan
    }

    /// How many tokens the slot of this parker holds at most.
    pub open spec fn capacity(self) -> Option<usize> {
        receiver_capacity(self.receiver())
    }
}

impl Unparker {
    /// Puts the token into the slot unless one is there already. The test and the
    /// deposit are one step of the channel, so two unparkers cannot both queue a
    /// token; the result is that of [`unparked`] on what the channel found.
    pub fn unpark(&self) -> (done: Unparked) {
        unparked(try_send_token(&self.chan))
    }

    /// One more unparker for the same parker: it brings its token to the same
    /// slot, which has the room that it had.
    pub fn duplicate(&self) -> (copy: Unparker)
        ensures
            copy.capacity() == self.capacity(),
    {
        Unparker { chan: clone_sender(&self.chan) }
    }

    /// The sending side of the channel that this handle holds.
    pub closed spec fn sender(self) -> Sender<()> {
        self.chan
    }

    /// How many tokens the slot that this unparker fills holds at most.
    pub open spec fn capacity(self) -> Option<usize> {
        sender_capacity(self.sender())
    }
}

} // verus!
