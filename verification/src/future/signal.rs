use vstd::prelude::*;
use async_channel::{Receiver, Sender};
use crate::channel::{
    bounded_tokens,
    clone_receiver,
    receiver_capacity,
    sender_capacity,
    try_recv_token,
};
use crate::future::cancel::cancelled;
use crate::poll::Poll;

verus! {

/// The sending side of a one-off signal: all receivers resolve once it is gone.
pub struct SignalSender {
    chan: Sender<()>,
}

/// The receiving side of a one-off signal.
pub struct SignalReceiver {
    chan: Receiver<()>,
}

/// A new pair for a one-off signal. The channel between the two is made with
/// room for one message, though none is ever sent.
pub fn signal() -> (pair: (SignalSender, SignalReceiver))
    ensures
        pair.0.capacity() == Some(1usize),
        pair.1.capacity() == Some(1usize),
{
    let (sender, receiver) = bounded_tokens(1);
    (SignalSender { chan: sender }, SignalReceiver { chan: receiver })
}

impl SignalSender {
    /// Signals all receivers by giving up the sender.
    pub fn cancel(self) {
    }

    /// The sending side of the channel that this handle holds.
    pub closed spec fn sender(self) -> Sender<()> {
        self.chan
    }

    /// How many messages the channel of this sender holds at most.
    pub open spec fn capacity(self) -> Option<usize> {
        sender_capacity(self.sender())
    }
}

impl SignalReceiver {
    /// Polls for the signal without waiting; the result is that of
    /// [`cancelled`] on what the channel found.
    pub fn poll_signalled(&self) -> (done: Poll<()>) {
        cancelled(try_recv_token(&self.chan))
    }

    /// One more receiver of the same signal: a handle of the same channel, which
    /// has the room that it had.
    pub fn duplicate(&self) -> (copy: SignalReceiver)
        ensures
            copy.capacity() == self.capacity(),
    {
        SignalReceiver { chan: clone_receiver(&self.chan) }
    }

    /// The channel that closes at the signal, for a caller that waits on it.
    pub fn channel(&self) -> (chan: &Receiver<()>)
        ensures
            *chan == self.receiver(),
    {
        &self.chan
    }

    /// The receiving side of the channel that this handle holds.
    pub closed spec fn receiver(self) -> Receiver<()> {
        self.chan
    }

    /// How many messages the channel of this receiver holds at most.
    pub open spec fn capacity(self) -> Option<usize> {
        receiver_capacity(self.receiver())
    }
}

} // verus!
