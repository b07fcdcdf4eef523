use vstd::prelude::*;
use async_channel::{Receiver, Sender, TryRecvError, TrySendError};

verus! {

/// The sending side of a channel of `async_channel`. Nothing of its contents is
/// known here: other handles of the same channel change them at any time.
#[verifier::external_type_specification]
#[verifier::external_body]
#[verifier::reject_recursive_types(T)]
pub struct ExSender<T>(Sender<T>);

/// The receiving side of a channel of `async_channel`. Nothing of its contents
/// is known here either.
#[verifier::external_type_specification]
#[verifier::external_body]
#[verifier::reject_recursive_types(T)]
pub struct ExReceiver<T>(Receiver<T>);

/// What an attempt to put a token into a channel found.
#[derive(Clone, Copy, Debug, PartialEq, Eq, Structural)]
pub enum SendAttempt {
    /// There was room, and the token is in the channel now.
    Sent,
    /// The channel was full; it is left as it was.
    Full,
    /// The channel was closed: no receiver is left.
    Closed,
}

/// What an attempt to take a token out of a channel found.
#[derive(Clone, Copy, Debug, PartialEq, Eq, Structural)]
pub enum RecvAttempt {
    /// A token was there and has been taken out.
    Received,
    /// The channel was empty, and senders are left that may fill it.
    Empty,
    /// The channel was empty and closed: no sender is left.
    Closed,
}

/// How many messages the channel behind a sender holds at most: what
/// `Sender::capacity` returns, `None` for a channel without a bound. The capacity
/// is fixed when the channel is made and is the same for all of its handles.
pub uninterp spec fn sender_capacity(chan: Sender<()>) -> Option<usize>;

/// How many messages the channel behind a receiver holds at most: what
/// `Receiver::capacity` returns, `None` for a channel without a bound.
pub uninterp spec fn receiver_capacity(chan: Receiver<()>) -> Option<usize>;

/// Calls `async_channel::bounded` for a channel of unit tokens that holds `cap`
/// of them at most. That function panics for a capacity of zero, which the
/// precondition leaves out. Both handles belong to a channel made with the
/// capacity `cap`, which is what their `capacity` reports from then on. Nothing
/// is claimed of what the channel holds.
#[verifier::external_body]
pub(crate) fn bounded_tokens(cap: usize) -> (pair: (Sender<()>, Receiver<()>))
    requires
        cap > 0,
    ensures
        sender_capacity(pair.0) == Some(cap),
        receiver_capacity(pair.1) == Some(cap),
{
    async_channel::bounded(cap)
}

/// Calls `Sender::try_send` with a unit token and tells the three results apart.
/// Which of them comes back depends on what the other handles of the channel have
/// done, so nothing is claimed of it.
#[verifier::external_body]
pub(crate) fn try_send_token(chan: &Sender<()>) -> (attempt: SendAttempt) {
    match chan.try_send(()) {
        Ok(()) => SendAttempt::Sent,
        Err(TrySendError::Full(())) => SendAttempt::Full,
        Err(TrySendError::Closed(())) => SendAttempt::Closed,
    }
}

/// Calls `Receiver::try_recv` and tells the three results apart. Which of them
/// comes back depends on what the other handles of the channel have done, so
/// nothing is claimed of it.
#[verifier::external_body]
pub(crate) fn try_recv_token(chan: &Receiver<()>) -> (attempt: RecvAttempt) {
    match chan.try_recv() {
        Ok(()) => RecvAttempt::Received,
        Err(TryRecvError::Empty) => RecvAttempt::Empty,
        Err(TryRecvError::Closed) => RecvAttempt::Closed,
    }
}

/// Calls `Sender::clone`: one more handle of the same channel, and so of the
/// same capacity.
#[verifier::external_body]
pub(crate) fn clone_sender(chan: &Sender<()>) -> (copy: Sender<()>)
    ensures
        sender_capacity(copy) == sender_capacity(*chan),
{
    chan.clone()
}

/// Calls `Receiver::clone`: one more handle of the same channel, and so of the
/// same capacity.
#[verifier::external_body]
pub(crate) fn clone_receiver(chan: &Receiver<()>) -> (copy: Receiver<()>)
    ensures
        receiver_capacity(copy) == receiver_capacity(*chan),
{
    chan.clone()
}

} // verus!
