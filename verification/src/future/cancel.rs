use vstd::prelude::*;
use async_channel::{Receiver, Sender};
use crate::channel::{
    bounded_tokens,
    clone_receiver,
    receiver_capacity,
    sender_capacity,
    try_recv_token,
    RecvAttempt,
};
use crate::poll::Poll;

verus! {

/// The sending side of a cancellation: all receivers resolve once it is gone.
pub struct CancelSender {
    chan: Sender<()>,
}

/// The receiving side of a cancellation. Used as the deadline of a timeout, it
/// ends the wrapped operation when the sender is dropped.
pub struct CancelReceiver {
    chan: Receiver<()>,
}

/// Whether the cancellation has happened, by what the channel found: only a
/// closed channel says so. The sender never sends, so nothing is ever received.
pub open spec fn cancelled_spec(attempt: RecvAttempt) -> Poll<()> {
    match attempt {
        RecvAttempt::Closed => Poll::Ready(()),
        _ => Poll::Pending,
    }
}

/// Whether the cancellation has happened, by what the channel found.
#[verifier::when_used_as_spec(cancelled_spec)]
pub fn cancelled(attempt: RecvAttempt) -> (done: Poll<()>)
    ensures
        done == cancelled_spec(attempt),
{
    match attempt {
        RecvAttempt::Closed => Poll::Ready(()),
        _ => Poll::Pending,
    }
}

/// A new pair for cancelling futures from afar. The channel between the two is
/// made with room for one message, though none is ever sent.
pub fn cancel() -> (pair: (CancelSender, CancelReceiver))
    ensures
        pair.0.capacity() == Some(1usize),
        pair.1.capacity() == Some(1usize),
{
    let (sender, receiver) = bounded_tokens(1);
    (CancelSender { chan: sender }, CancelReceiver { chan: receiver })
}

impl CancelSender {
    /// Cancels all receivers by giving up the sender.
    pub fn cancel(self) {
    }

    /// The sending side of the channel that this handle holds.
    pub closed spec fn sender(self) -> Sender<()> {
        self.chan
    }

    /// How many messages the channel of this sender holds at most.
    pub open spec fn capacity(self) -> Option<usize> {
        sender_capacity(self.sender())
    }
}

impl CancelReceiver {
    /// Polls for the cancellation without waiting; the result is that of
    /// [`cancelled`] on what the channel found.
    pub fn poll_cancelled(&self) -> (done: Poll<()>) {
        cancelled(try_recv_token(&self.chan))
    }

    /// One more receiver of the same cancellation: a handle of the same channel,
    /// which has the room that it had.
    pub fn duplicate(&self) -> (copy: CancelReceiver)
        ensures
            copy.capacity() == self.capacity(),
    {
        CancelReceiver { chan: clone_receiver(&self.chan) }
    }

    /// The channel that closes at the cancellation, for a caller that waits on it.
    pub fn channel(&self) -> (chan: &Receiver<()>)
        ensures
            *chan == self.receiver(),
    {
        &self.chan
    }

    /// The receiving side of the channel that this handle holds.
    pub closed spec fn receiver(self) -> Receiver<()> {
        self.chan
    }

    /// How many messages the channel of this receiver holds at most.
    pub open spec fn capacity(self) -> Option<usize> {
        receiver_capacity(self.receiver())
    }
}

} // verus!
