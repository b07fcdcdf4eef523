use futures_time::poll::{Outcome, Poll, Step, TimeoutError};
use futures_time::stream::{
    interval, Buffer, BufferState, Debounce, DebounceState, Delay, Interval, Sample, SampleState,
    Throttle, ThrottleState, Timeout, TimeoutOnce,
};
use futures_time::task::Timer;
use futures_time::time::{Duration, Instant};

fn at(millis: u64) -> Instant {
    Instant::from_origin(Duration::from_millis(millis))
}

fn pending<T>() -> Outcome<T> {
    Outcome { result: Poll::Pending, rearm: false, wake: false }
}

fn ready<T>(value: T) -> Outcome<T> {
    Outcome { result: Poll::Ready(value), rearm: false, wake: false }
}

/// A source that yields the first `left` ticks of an interval and then ends.
struct Take {
    ticks: Interval,
    left: usize,
}

impl Take {
    fn new(period: Duration, count: usize) -> Take {
        Take { ticks: interval(at(0), period), left: count }
    }

    fn poll(&mut self, now: Instant) -> Poll<Option<Instant>> {
        if self.left == 0 {
            return Poll::Ready(None);
        }
        let tick = self.ticks.poll_next(now);
        if tick.is_ready() {
            self.left -= 1;
        }
        tick
    }

    /// Polls until the source is pending or at its end, as a draining stream does.
    fn drain(&mut self, now: Instant) -> (Vec<Instant>, bool) {
        let mut items = Vec::new();
        loop {
            match self.poll(now) {
                Poll::Ready(Some(item)) => items.push(item),
                Poll::Ready(None) => return (items, true),
                Poll::Pending => return (items, false),
            }
        }
    }

    fn wakes_at(&self) -> Option<Instant> {
        if self.left == 0 {
            None
        } else {
            self.ticks.delay.when
        }
    }
}

/// The clock reading at which the next timer wakes a pending task.
fn next_wake(a: Option<Instant>, b: Option<Instant>) -> Instant {
    match (a, b) {
        (Some(a), Some(b)) => a.min(b),
        (Some(a), None) => a,
        (None, Some(b)) => b,
        (None, None) => panic!("nothing is left to wake the task"),
    }
}

/// Runs `interval(bound).take(take).debounce(debounce_bound)` to its end on a clock
/// that jumps from one wake-up to the next, and counts the items that come out.
fn count_debounced(bound: Duration, take: usize, debounce_bound: Duration) -> usize {
    let mut now = at(0);
    let mut source = Take::new(bound, take);
    let mut timer = Timer::never();
    let mut stream = Debounce::new();
    let mut counter: usize = 0;
    loop {
        let event = source.poll(now);
        let out = stream.poll_at(&mut timer, debounce_bound, now, event);
        match out.result {
            Poll::Ready(Some(_)) => counter += 1,
            Poll::Ready(None) => return counter,
            Poll::Pending => {
                if !out.wake {
                    now = next_wake(source.wakes_at(), timer.when);
                }
            }
        }
    }
}

#[test]
fn all_values_debounce() {
    let bound = Duration::from_millis(10);
    let debounce_bound = Duration::from_millis(20);

    let counter = count_debounced(bound, 10, debounce_bound);

    assert_eq!(counter, 1);
}

#[test]
fn no_debounces_hit() {
    let bound = Duration::from_millis(40);
    let debounce_bound = Duration::from_millis(10);

    let counter = count_debounced(bound, 10, debounce_bound);

    assert_eq!(counter, 10);
}

#[test]
fn debounce_of_a_burst_emits_the_last_item() {
    let quiet = Duration::from_millis(20);
    let mut timer = Timer::after(at(0), quiet);
    let mut stream = Debounce::new();
    let waked = Outcome { result: Poll::Pending, rearm: true, wake: true };
    assert_eq!(stream.poll_at(&mut timer, quiet, at(0), Poll::Ready(Some('a'))), waked);
    assert_eq!(stream.poll_at(&mut timer, quiet, at(0), Poll::Pending), pending());
    let waked = Outcome { result: Poll::Pending, rearm: true, wake: true };
    assert_eq!(stream.poll_at(&mut timer, quiet, at(10), Poll::Ready(Some('b'))), waked);
    assert_eq!(stream.poll_at(&mut timer, quiet, at(20), Poll::Pending), pending());
    let waked = Outcome { result: Poll::Pending, rearm: true, wake: true };
    assert_eq!(stream.poll_at(&mut timer, quiet, at(25), Poll::Ready(Some('c'))), waked);
    assert_eq!(timer.when, Some(at(45)));
    assert_eq!(stream.poll_at(&mut timer, quiet, at(44), Poll::Pending), pending());
    assert_eq!(stream.poll_at(&mut timer, quiet, at(45), Poll::Pending), ready(Some('c')));
    assert_eq!(stream.slot, None);
    assert_eq!(stream.poll_at(&mut timer, quiet, at(46), Poll::Ready(None)), ready(None));
    assert!(stream.is_done());
}

#[test]
fn debounce_never_emits_an_item_in_the_poll_that_brings_it() {
    let mut stream = Debounce::new();
    let out = stream.poll_with(Poll::Ready(Some(1)), true);
    assert_eq!(out.result, Poll::Pending);
    assert!(out.rearm);
    assert_eq!(stream.slot, Some(1));
}

#[test]
fn debounce_timer_with_an_empty_slot_emits_nothing() {
    let mut stream: Debounce<u8> = Debounce::new();
    assert_eq!(stream.poll_with(Poll::Pending, true), pending());
    assert_eq!(stream.state, DebounceState::Streaming);
}

#[test]
fn debounce_flushes_the_held_item_and_then_ends() {
    let mut stream = Debounce::new();
    let _ = stream.poll_with(Poll::Ready(Some("first")), false);
    let _ = stream.poll_with(Poll::Ready(Some("last")), false);
    assert_eq!(stream.poll_with(Poll::Ready(None), false), ready(Some("last")));
    assert_eq!(stream.state, DebounceState::Flushed);
    assert_eq!(stream.begin(), Step::Done(ready(None)));
    assert!(stream.is_done());
}

#[test]
fn debounce_of_an_empty_source_ends_at_once() {
    let mut stream: Debounce<u8> = Debounce::new();
    assert_eq!(stream.poll_with(Poll::Ready(None), false), ready(None));
    assert!(stream.is_done());
}

#[test]
fn debounce_asks_the_source_before_the_timer() {
    let mut stream: Debounce<u8> = Debounce::new();
    assert_eq!(stream.begin(), Step::Source);
    let held = Outcome { result: Poll::Pending, rearm: true, wake: true };
    assert_eq!(stream.on_source(Poll::Ready(Some(4))), Step::Done(held));
    assert_eq!(stream.begin(), Step::Source);
    assert_eq!(stream.on_source(Poll::Pending), Step::Signal);
    assert_eq!(stream.on_signal(false), Step::Done(pending()));
    assert_eq!(stream.on_signal(true), Step::Done(ready(Some(4))));
}

#[test]
fn debounce_with_an_empty_slot_leaves_the_timer_alone() {
    let mut timer = Timer::at(at(10));
    let mut stream: Debounce<u8> = Debounce::new();
    assert_eq!(stream.begin(), Step::Source);
    assert_eq!(stream.on_source(Poll::Pending), Step::Done(pending()));
    let quiet = Duration::from_millis(20);
    assert_eq!(stream.poll_at(&mut timer, quiet, at(15), Poll::Pending), pending());
    assert_eq!(timer.when, Some(at(10)));
}

/// Runs `interval(bound).take(take).throttle(interval(window))` to its end, driving
/// the stream step by step as an executor and its timers would, and counts the
/// items that come out.
fn count_throttled(bound: Duration, take: usize, window: Duration) -> usize {
    let mut now = at(0);
    let mut source = Take::new(bound, take);
    let mut windows = interval(now, window);
    let mut stream = Throttle::new();
    let mut counter: usize = 0;
    loop {
        let mut step = stream.begin();
        let out = loop {
            step = match step {
                Step::Source => stream.on_source(source.poll(now)),
                Step::Signal => stream.on_signal(windows.poll_next(now).is_ready()),
                Step::Done(out) => break out,
            };
        };
        match out.result {
            Poll::Ready(Some(_)) => counter += 1,
            Poll::Ready(None) => return counter,
            Poll::Pending => {
                if !out.wake {
                    now = next_wake(source.wakes_at(), windows.delay.when);
                }
            }
        }
    }
}

#[test]
fn throttle_smoke() {
    let interval = Duration::from_millis(100);
    let throttle = Duration::from_millis(300);

    let take = 4;
    let expected = 2;

    let counter = count_throttled(interval, take, throttle);

    assert_eq!(counter, expected);
}

#[test]
fn throttle_lets_the_first_item_of_each_window_through() {
    let mut windows = interval(at(0), Duration::from_millis(300));
    let mut stream = Throttle::new();
    let out = stream.poll_at(&mut windows, at(100), vec!['a', 'b', 'c'], false);
    assert_eq!(out, ready(Some('a')));
    assert_eq!(stream.state, ThrottleState::Streaming(1));
    assert_eq!(stream.poll_at(&mut windows, at(200), vec!['d'], false), pending());
    assert_eq!(stream.poll_at(&mut windows, at(300), vec!['e'], false), pending());
    assert_eq!(stream.state, ThrottleState::Streaming(0));
    assert_eq!(windows.delay.when, Some(at(600)));
    assert_eq!(stream.poll_at(&mut windows, at(400), vec!['f', 'g'], false), ready(Some('f')));
    assert_eq!(stream.poll_at(&mut windows, at(500), vec![], false), pending());
}

#[test]
fn throttle_rate_stays_within_the_bound() {
    let period = Duration::from_millis(300);
    let mut windows = interval(at(0), period);
    let mut stream = Throttle::new();
    let mut let_through: u64 = 0;
    let mut now: u64 = 0;
    while now <= 1_000 {
        let out = stream.poll_at(&mut windows, at(now), vec![now], false);
        if let Poll::Ready(Some(_)) = out.result {
            let_through += 1;
        }
        assert!(let_through <= now / 300 + 1);
        now += 50;
    }
    assert_eq!(let_through, 4);
}

#[test]
fn throttle_delivers_the_end_once_after_the_last_item() {
    let mut stream = Throttle::new();
    assert_eq!(stream.poll_with(vec![7], true, false), ready(Some(7)));
    assert_eq!(stream.state, ThrottleState::StreamDone);
    assert_eq!(stream.poll_with(vec![], false, false), ready(None));
    assert!(stream.is_done());
}

#[test]
fn throttle_at_the_end_of_the_source_asks_for_a_poll_on_a_tick() {
    let mut stream: Throttle<u8> = Throttle::new();
    let out = stream.poll_with(vec![], true, true);
    assert_eq!(out, Outcome { result: Poll::Pending, rearm: false, wake: true });
    assert_eq!(stream.begin(), Step::Done(ready(None)));
}

/// Runs `interval(bound).take(take).sample(interval(window))` to its end and
/// counts the items that come out.
fn count_sampled(bound: Duration, take: usize, window: Duration) -> usize {
    let mut now = at(0);
    let mut source = Take::new(bound, take);
    let mut ticks = interval(now, window);
    let mut stream = Sample::new();
    let mut counter: usize = 0;
    loop {
        let (items, exhausted) = if stream.state == SampleState::Streaming {
            source.drain(now)
        } else {
            (Vec::new(), false)
        };
        let out = stream.poll_at(&mut ticks, now, items, exhausted);
        match out.result {
            Poll::Ready(Some(_)) => counter += 1,
            Poll::Ready(None) => return counter,
            Poll::Pending => {
                if !out.wake {
                    now = next_wake(source.wakes_at(), ticks.delay.when);
                }
            }
        }
    }
}

#[test]
fn sample_yields_the_last_item_of_each_interval() {
    let interval = Duration::from_millis(100);
    let throttle = Duration::from_millis(200);

    let take = 4;
    let expected = 2;

    let counter = count_sampled(interval, take, throttle);

    assert_eq!(counter, expected);
}

#[test]
fn sample_emits_the_latest_item_at_a_tick() {
    let mut stream = Sample::new();
    assert_eq!(stream.poll_with(vec![1, 2, 3], false, false), pending());
    assert_eq!(stream.slot, Some(3));
    assert_eq!(stream.poll_with(vec![4], false, true), ready(Some(4)));
    assert_eq!(stream.slot, None);
}

#[test]
fn sample_tick_with_an_empty_slot_emits_nothing() {
    let mut stream: Sample<u8> = Sample::new();
    assert_eq!(stream.poll_with(vec![], false, true), pending());
    assert_eq!(stream.poll_with(vec![9], false, true), ready(Some(9)));
    assert_eq!(stream.poll_with(vec![], false, true), pending());
}

#[test]
fn sample_keeps_the_last_item_for_the_tick_after_the_end() {
    let mut stream = Sample::new();
    assert_eq!(stream.poll_with(vec![5, 6], true, false), pending());
    assert_eq!(stream.state, SampleState::Flushing);
    assert_eq!(stream.begin(), Step::Signal);
    assert_eq!(stream.on_signal(false), Step::Done(pending()));
    assert_eq!(stream.poll_with(vec![], false, true), ready(Some(6)));
    assert_eq!(stream.poll_with(vec![], false, false), ready(None));
    assert!(stream.is_done());
}

#[test]
fn sample_of_an_empty_source_ends_at_once() {
    let mut stream: Sample<u8> = Sample::new();
    assert_eq!(stream.poll_with(vec![], true, false), ready(None));
    assert!(stream.is_done());
}

#[test]
fn buffer_regroups_every_item() {
    let interval_bound = Duration::from_millis(5);
    let buffer_bound = Duration::from_millis(20);

    let mut now = at(0);
    let mut source = Take::new(interval_bound, 10);
    let mut ticks = interval(now, buffer_bound);
    let mut stream = Buffer::new();
    let mut counter: usize = 0;
    let mut sizes: Vec<usize> = Vec::new();
    loop {
        let (items, exhausted) = if stream.state == BufferState::Streaming {
            source.drain(now)
        } else {
            (Vec::new(), false)
        };
        let out = stream.poll_at(&mut ticks, now, items, exhausted);
        match out.result {
            Poll::Ready(Some(buf)) => {
                counter += buf.len();
                sizes.push(buf.len());
            }
            Poll::Ready(None) => break,
            Poll::Pending => {
                if !out.wake {
                    now = next_wake(source.wakes_at(), ticks.delay.when);
                }
            }
        }
    }

    assert_eq!(counter, 10);
    assert_eq!(sizes, vec![4, 4, 2]);
}

#[test]
fn buffer_keeps_the_order_and_emits_empty_batches() {
    let mut stream = Buffer::new();
    assert_eq!(stream.poll_with(vec!['a', 'b'], false, false), pending());
    assert_eq!(stream.poll_with(vec!['c'], false, true), ready(Some(vec!['a', 'b', 'c'])));
    assert_eq!(stream.poll_with(vec![], false, true), ready(Some(vec![])));
    assert_eq!(stream.poll_with(vec!['d'], true, false), pending());
    assert_eq!(stream.state, BufferState::Flushing);
    assert_eq!(stream.poll_with(vec![], false, true), ready(Some(vec!['d'])));
    assert_eq!(stream.poll_with(vec![], false, false), ready(None));
    assert!(stream.is_done());
}

#[test]
fn buffer_with_nothing_left_ends_without_a_tick() {
    let mut stream: Buffer<u8> = Buffer::new();
    assert_eq!(stream.poll_with(vec![1], false, true), ready(Some(vec![1])));
    assert_eq!(stream.poll_with(vec![], true, false), ready(None));
    assert!(stream.is_done());
}

#[test]
fn stream_timeout_gives_each_item_a_budget_of_its_own() {
    let budget = Duration::from_millis(50);
    let mut deadline = Timer::after(at(0), budget);
    let mut stream = Timeout::new();
    let first = Outcome { result: Poll::Ready(Some(Ok('a'))), rearm: true, wake: false };
    assert_eq!(stream.poll_at(&mut deadline, budget, at(40), Poll::Ready(Some('a'))), first);
    assert_eq!(deadline.when, Some(at(90)));
    assert_eq!(stream.poll_at(&mut deadline, budget, at(80), Poll::<Option<char>>::Pending), pending());
    let second = Outcome { result: Poll::Ready(Some(Ok('b'))), rearm: true, wake: false };
    assert_eq!(stream.poll_at(&mut deadline, budget, at(89), Poll::Ready(Some('b'))), second);
    assert_eq!(stream.poll_at(&mut deadline, budget, at(138), Poll::<Option<char>>::Pending), pending());
    assert_eq!(
        stream.poll_at(&mut deadline, budget, at(139), Poll::<Option<char>>::Pending),
        ready(Some(Err(TimeoutError {})))
    );
    assert_eq!(stream, Timeout::TimedOut);
    assert_eq!(
        stream.poll_at(&mut deadline, budget, at(140), Poll::Ready(Some('c'))),
        ready(None)
    );
    assert!(stream.is_done());
}

#[test]
fn stream_timeout_ends_with_the_source() {
    let mut stream = Timeout::new();
    assert_eq!(stream.poll_with(Poll::<Option<u8>>::Ready(None), true), ready(None));
    assert!(stream.is_done());
}

#[test]
fn stream_timeout_shorter_than_the_delay_fails() {
    let budget = Duration::from_millis(50);
    let mut deadline = Timer::after(at(0), budget);
    let mut wait = Timer::after(at(0), Duration::from_millis(100));
    let mut delayed = Delay::new();
    let mut stream = Timeout::new();
    let inner = delayed.poll_with(wait.poll_fired(at(50)).is_ready(), Poll::Ready(Some("meow")));
    assert_eq!(inner, pending());
    let res = stream.poll_at(&mut deadline, budget, at(50), inner.result);
    assert_eq!(res.result, Poll::Ready(Some(Err(TimeoutError {}))));
}

#[test]
fn stream_timeout_longer_than_the_delay_succeeds() {
    let budget = Duration::from_millis(100);
    let mut deadline = Timer::after(at(0), budget);
    let mut wait = Timer::after(at(0), Duration::from_millis(50));
    let mut delayed = Delay::new();
    let mut stream = Timeout::new();
    let inner = delayed.poll_with(wait.poll_fired(at(50)).is_ready(), Poll::Ready(Some("meow")));
    let res = stream.poll_at(&mut deadline, budget, at(50), inner.result);
    assert_eq!(res.result, Poll::Ready(Some(Ok("meow"))));
}

#[test]
fn stream_delay_holds_back_the_first_poll_only() {
    let mut delay = Delay::new();
    assert_eq!(delay.begin::<u8>(), Step::Signal);
    assert_eq!(delay.poll_with(false, Poll::Ready(Some(1u8))), pending());
    assert_eq!(delay, Delay::Timer);
    assert_eq!(delay.poll_with(true, Poll::Ready(Some(1u8))), ready(Some(1u8)));
    assert_eq!(delay, Delay::Streaming);
    assert_eq!(delay.begin::<u8>(), Step::Source);
    assert_eq!(delay.poll_with(false, Poll::Ready(Some(2u8))), ready(Some(2u8)));
    assert_eq!(delay.poll_with(false, Poll::<Option<u8>>::Pending), pending());
    assert_eq!(delay.poll_with(false, Poll::<Option<u8>>::Ready(None)), ready(None));
}

#[test]
fn timeout_once_ends_the_stream_at_the_deadline() {
    let mut stream = TimeoutOnce::new();
    assert_eq!(stream.begin::<u8>(), Step::Signal);
    assert_eq!(stream.poll_with(false, Poll::Ready(Some(1u8))), ready(Some(1u8)));
    assert_eq!(stream.poll_with(false, Poll::<Option<u8>>::Pending), pending());
    assert_eq!(stream.poll_with(true, Poll::Ready(Some(2u8))), ready(None));
    assert!(stream.is_done());
}

#[test]
fn timeout_once_ends_with_the_source() {
    let mut stream = TimeoutOnce::new();
    assert_eq!(stream.poll_with(false, Poll::<Option<u8>>::Ready(None)), ready(None));
    assert!(stream.is_done());
}
