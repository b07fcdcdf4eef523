use futures_time::future::{Delay, Park, Timeout, Token};
use futures_time::poll::{Outcome, Poll, Step, TimeoutError};
use futures_time::task::Timer;
use futures_time::time::{Duration, Instant};

fn at(millis: u64) -> Instant {
    Instant::from_origin(Duration::from_millis(millis))
}

fn pending<T>() -> Outcome<T> {
    Outcome { result: Poll::Pending, rearm: false, wake: false }
}

fn ready<T>(value: T) -> Outcome<T> {
    Outcome { result: Poll::Ready(value), rearm: false, wake: false }
}

#[test]
fn timeout_delivers_a_value_that_comes_before_the_deadline() {
    let mut deadline = Timer::after(at(0), Duration::from_millis(200));
    let mut timeout = Timeout::new();
    assert_eq!(timeout.poll_at(&mut deadline, at(50), Poll::<&str>::Pending), pending());
    assert_eq!(timeout.poll_at(&mut deadline, at(100), Poll::Ready("meow")), ready(Ok("meow")));
    assert!(timeout.is_completed());
    assert!(deadline.will_fire());
}

#[test]
fn timeout_fails_at_the_deadline_and_not_before() {
    let mut deadline = Timer::after(at(0), Duration::from_millis(50));
    let mut timeout = Timeout::new();
    for now in [0u64, 10u64, 49u64] {
        assert_eq!(timeout.poll_at(&mut deadline, at(now), Poll::<&str>::Pending), pending());
        assert!(!timeout.is_completed());
    }
    assert_eq!(
        timeout.poll_at(&mut deadline, at(50), Poll::<&str>::Pending),
        ready(Err(TimeoutError {}))
    );
    assert!(timeout.is_completed());
}

#[test]
fn timeout_prefers_the_value_when_both_are_there() {
    let mut deadline = Timer::at(at(50));
    let mut timeout = Timeout::new();
    assert_eq!(timeout.poll_at(&mut deadline, at(50), Poll::Ready(7)), ready(Ok(7)));
    let mut again = Timeout::new();
    assert_eq!(again.poll_with(Poll::Ready(7), true), ready(Ok(7)));
}

#[test]
fn timeout_asks_the_future_first_and_the_deadline_only_while_it_is_pending() {
    let mut timeout = Timeout::new();
    assert_eq!(timeout.begin::<u8>(), Step::Source);
    assert_eq!(timeout.on_source(Poll::<u8>::Pending), Step::Signal);
    assert_eq!(timeout.on_signal::<u8>(false), Step::Done(pending()));
    assert_eq!(timeout.begin::<u8>(), Step::Source);
    assert_eq!(timeout.on_source(Poll::Ready(3u8)), Step::Done(ready(Ok(3u8))));
}

#[test]
fn timeout_error_has_a_message() {
    assert_eq!(TimeoutError {}.message(), "future has timed out");
}

#[test]
fn delay_polls_a_zero_length_deadline_before_a_ready_future() {
    let mut deadline = Timer::after(at(0), Duration::zero());
    let mut delay = Delay::new();
    assert_eq!(delay.begin::<&str>(), Step::Signal);
    let fired = deadline.poll_fired(at(0)).is_ready();
    assert!(fired);
    assert_eq!(delay.on_signal::<&str>(fired), Step::Source);
    assert_eq!(delay.on_source(Poll::Ready("meow")), Step::Done(ready("meow")));
    assert!(delay.is_completed());
}

#[test]
fn delay_keeps_a_ready_future_back_until_the_deadline() {
    let mut delay = Delay::new();
    assert_eq!(delay.poll_with(false, Poll::Ready("meow")), pending());
    assert_eq!(delay, Delay::Waiting);
    assert_eq!(delay.poll_with(false, Poll::Ready("meow")), pending());
    assert_eq!(delay.poll_with(true, Poll::Ready("meow")), ready("meow"));
    assert_eq!(delay, Delay::Completed);
}

#[test]
fn delay_asks_the_deadline_only_until_it_has_fired() {
    let mut delay = Delay::new();
    assert_eq!(delay.poll_with(true, Poll::<u8>::Pending), pending());
    assert_eq!(delay, Delay::Passing);
    assert_eq!(delay.begin::<u8>(), Step::Source);
    assert_eq!(delay.poll_with(false, Poll::Ready(9u8)), ready(9u8));
}

#[test]
fn park_does_not_poll_the_future_until_it_is_resumed() {
    let mut park = Park::new();
    assert_eq!(park, Park::Suspended);
    assert_eq!(park.begin::<u8>(), Step::Signal);
    assert_eq!(park.on_signal::<u8>(Poll::Pending), Step::Done(pending()));
    assert_eq!(park.begin::<u8>(), Step::Signal);
    assert_eq!(park.on_signal::<u8>(Poll::Ready(Some(Token::Resume))), Step::Signal);
    assert_eq!(park, Park::Active);
    assert_eq!(park.on_signal::<u8>(Poll::Pending), Step::Source);
    assert_eq!(park.on_source(Poll::<u8>::Pending), Step::Done(pending()));
    assert_eq!(park.begin::<u8>(), Step::Signal);
    assert_eq!(park.on_signal::<u8>(Poll::Pending), Step::Source);
    assert_eq!(park.on_source(Poll::Ready(5u8)), Step::Done(ready(5u8)));
    assert!(park.is_completed());
}

#[test]
fn park_is_suspended_by_a_pause_token() {
    let mut park = Park::Active;
    let paused = Outcome { result: Poll::Pending, rearm: false, wake: true };
    assert_eq!(park.on_signal::<u8>(Poll::Ready(Some(Token::Pause))), Step::Done(paused));
    assert_eq!(park, Park::Suspended);
    let again = Outcome { result: Poll::Pending, rearm: false, wake: true };
    assert_eq!(park.on_signal::<u8>(Poll::Ready(Some(Token::Pause))), Step::Done(again));
    assert_eq!(park, Park::Suspended);
}

#[test]
fn park_fails_open_when_the_channel_is_closed() {
    let mut park = Park::new();
    assert_eq!(park.on_signal::<u8>(Poll::Ready(None)), Step::Source);
    assert_eq!(park, Park::NoChannel);
    assert_eq!(park.on_source(Poll::<u8>::Pending), Step::Done(pending()));
    assert_eq!(park.begin::<u8>(), Step::Source);
    assert_eq!(park.on_source(Poll::Ready(1u8)), Step::Done(ready(1u8)));
    assert_eq!(park, Park::Completed);
}
