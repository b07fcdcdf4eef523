use futures_time::channel::{RecvAttempt, SendAttempt};
use futures_time::future::cancel::cancelled;
use futures_time::future::parker::{parked, unparked, Unparked};
use futures_time::future::{cancel, parker, signal};
use futures_time::poll::Poll;

#[test]
fn parker_smoke() {
    let (parker, unparker) = parker();
    drop(unparker);
    assert_eq!(parker.try_park(), Poll::Ready(()));
    // did not hang!
}

#[test]
fn parker_waits_for_the_token_and_takes_it() {
    let (parker, unparker) = parker();
    assert_eq!(parker.try_park(), Poll::Pending);
    assert_eq!(unparker.unpark(), Unparked::Deposited);
    assert_eq!(parker.try_park(), Poll::Ready(()));
    assert_eq!(parker.try_park(), Poll::Pending);
}

#[test]
fn unpark_before_park_returns_at_once() {
    let (parker, unparker) = parker();
    assert_eq!(unparker.unpark(), Unparked::Deposited);
    assert_eq!(parker.try_park(), Poll::Ready(()));
}

#[test]
fn unparker_keeps_one_token_at_most() {
    let (parker, unparker) = parker();
    let second = unparker.duplicate();
    assert_eq!(unparker.unpark(), Unparked::Deposited);
    assert_eq!(second.unpark(), Unparked::AlreadyPending);
    assert_eq!(unparker.unpark(), Unparked::AlreadyPending);
    assert_eq!(parker.try_park(), Poll::Ready(()));
    assert_eq!(parker.try_park(), Poll::Pending);
}

#[test]
fn unparker_finds_no_parker() {
    let (parker, unparker) = parker();
    drop(parker);
    assert_eq!(unparker.unpark(), Unparked::NoParker);
}

#[test]
fn parker_is_woken_only_when_the_last_unparker_is_gone() {
    let (parker, unparker) = parker();
    let second = unparker.duplicate();
    drop(unparker);
    assert_eq!(parker.try_park(), Poll::Pending);
    drop(second);
    assert_eq!(parker.try_park(), Poll::Ready(()));
}

#[test]
fn channel_results_map_to_outcomes() {
    assert_eq!(unparked(SendAttempt::Sent), Unparked::Deposited);
    assert_eq!(unparked(SendAttempt::Full), Unparked::AlreadyPending);
    assert_eq!(unparked(SendAttempt::Closed), Unparked::NoParker);
    assert_eq!(parked(RecvAttempt::Received), Poll::Ready(()));
    assert_eq!(parked(RecvAttempt::Closed), Poll::Ready(()));
    assert_eq!(parked(RecvAttempt::Empty), Poll::Pending);
    assert_eq!(cancelled(RecvAttempt::Closed), Poll::Ready(()));
    assert_eq!(cancelled(RecvAttempt::Empty), Poll::Pending);
    assert_eq!(cancelled(RecvAttempt::Received), Poll::Pending);
}

#[test]
fn cancel_resolves_all_receivers_when_the_sender_is_gone() {
    let (sender, receiver) = cancel();
    let other = receiver.duplicate();
    assert_eq!(receiver.poll_cancelled(), Poll::Pending);
    assert_eq!(other.poll_cancelled(), Poll::Pending);
    sender.cancel();
    assert_eq!(receiver.poll_cancelled(), Poll::Ready(()));
    assert_eq!(other.poll_cancelled(), Poll::Ready(()));
    assert!(receiver.channel().is_closed());
}

#[test]
fn signal_resolves_when_the_sender_is_dropped() {
    let (sender, receiver) = signal();
    let other = receiver.duplicate();
    assert_eq!(receiver.poll_signalled(), Poll::Pending);
    drop(sender);
    assert_eq!(receiver.poll_signalled(), Poll::Ready(()));
    assert_eq!(other.poll_signalled(), Poll::Ready(()));
}

#[test]
fn parker_slot_has_room_for_one_token() {
    let (parker, unparker) = parker();
    assert_eq!(parker.channel().capacity(), Some(1));
    assert_eq!(unparker.unpark(), Unparked::Deposited);
    assert!(parker.channel().is_full());
    let second = unparker.duplicate();
    assert_eq!(second.unpark(), Unparked::AlreadyPending);
    assert_eq!(parker.channel().len(), 1);
}

#[test]
fn cancel_and_signal_channels_have_room_for_one_message() {
    let (_sender, receiver) = cancel();
    assert_eq!(receiver.channel().capacity(), Some(1));
    assert_eq!(receiver.duplicate().channel().capacity(), Some(1));
    assert_eq!(receiver.channel().receiver_count(), 1);
    let copy = receiver.duplicate();
    assert_eq!(receiver.channel().receiver_count(), 2);
    assert_eq!(copy.channel().sender_count(), 1);
    let (_sender, receiver) = signal();
    assert_eq!(receiver.channel().capacity(), Some(1));
    assert_eq!(receiver.duplicate().channel().capacity(), Some(1));
}
