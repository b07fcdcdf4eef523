use futures_time::future::{IntoFuture, ResetDeadlineFuture, ResetFuture};
use futures_time::poll::Poll;
use futures_time::stream::{interval, IntoStream};
use futures_time::task::{sleep, sleep_until, Timer};
use futures_time::time::{Duration, Instant};

fn at(millis: u64) -> Instant {
    Instant::from_origin(Duration::from_millis(millis))
}

#[test]
fn timer_fires_once_and_not_before_its_deadline() {
    let mut timer = Timer::after(at(100), Duration::from_millis(50));
    assert!(timer.will_fire());
    assert_eq!(timer.poll_fired(at(149)), Poll::Pending);
    assert_eq!(timer.poll_fired(at(150)), Poll::Ready(at(150)));
    assert!(!timer.will_fire());
    assert_eq!(timer.poll_fired(at(1_000)), Poll::Pending);
}

#[test]
fn timer_reports_its_deadline_when_polled_late() {
    let mut timer = Timer::at(at(20));
    assert_eq!(timer.poll_fired(at(75)), Poll::Ready(at(20)));
}

#[test]
fn timer_can_be_armed_again() {
    let mut timer = Timer::never();
    assert_eq!(timer.poll_fired(at(5)), Poll::Pending);
    timer.set_after(at(5), Duration::from_millis(10));
    assert_eq!(timer.poll_fired(at(14)), Poll::Pending);
    timer.set_at(at(30));
    assert_eq!(timer.poll_fired(at(15)), Poll::Pending);
    assert_eq!(timer.poll_fired(at(30)), Poll::Ready(at(30)));
}

#[test]
fn timer_beyond_the_clock_never_fires() {
    let end = Instant::from_origin(Duration::from_secs(u64::MAX));
    let mut timer = Timer::after(end, Duration::from_secs(1));
    assert!(!timer.will_fire());
    assert_eq!(timer.poll_fired(end), Poll::Pending);
}

#[test]
fn zero_length_timer_fires_at_once() {
    let mut timer = Timer::after(at(7), Duration::zero());
    assert_eq!(timer.poll_fired(at(7)), Poll::Ready(at(7)));
}

#[test]
fn sleep_resolves_at_its_deadline() {
    let mut s = sleep(at(0), Duration::from_millis(100));
    assert_eq!(s.poll(at(99)), Poll::Pending);
    assert!(!s.completed);
    assert_eq!(s.poll(at(100)), Poll::Ready(at(100)));
    assert!(s.completed);
}

#[test]
fn sleep_reset_waits_the_whole_span_again() {
    let mut s = sleep(at(0), Duration::from_millis(100));
    assert_eq!(s.poll(at(120)), Poll::Ready(at(100)));
    ResetFuture::reset(&mut s, at(120));
    assert!(!s.completed);
    assert_eq!(s.poll(at(219)), Poll::Pending);
    assert_eq!(s.poll(at(220)), Poll::Ready(at(220)));
    s.reset_deadline(at(300));
    assert_eq!(s.poll(at(399)), Poll::Pending);
    assert_eq!(s.poll(at(400)), Poll::Ready(at(400)));
}

#[test]
fn sleep_until_resolves_at_the_instant() {
    let mut s = sleep_until(at(40));
    assert_eq!(s.poll(at(39)), Poll::Pending);
    assert_eq!(s.poll(at(41)), Poll::Ready(at(40)));
}

#[test]
fn duration_and_instant_become_deadlines() {
    let mut relative = Duration::from_millis(30).into_future(at(10));
    assert_eq!(relative.poll(at(39)), Poll::Pending);
    assert_eq!(relative.poll(at(40)), Poll::Ready(at(40)));
    let mut absolute = at(25).into_future(at(10));
    assert_eq!(absolute.poll(at(24)), Poll::Pending);
    assert_eq!(absolute.poll(at(25)), Poll::Ready(at(25)));
}

#[test]
fn interval_ticks_take_at_least_one_period_each() {
    let period = Duration::from_millis(10);
    let mut ticks = interval(at(0), period);
    let mut now: u64 = 0;
    let mut taken: u32 = 0;
    while taken < 5 {
        if ticks.poll_next(at(now)).is_ready() {
            taken += 1;
        } else {
            now += 1;
        }
    }
    assert_eq!(now, 50);
}

#[test]
fn interval_delivers_one_tick_per_poll_and_drifts_after_a_stall() {
    let mut ticks = interval(at(0), Duration::from_millis(10));
    assert_eq!(ticks.poll_next(at(9)), Poll::Pending);
    assert_eq!(ticks.poll_next(at(35)), Poll::Ready(Some(at(10))));
    assert_eq!(ticks.poll_next(at(35)), Poll::Pending);
    assert_eq!(ticks.poll_next(at(44)), Poll::Pending);
    assert_eq!(ticks.poll_next(at(45)), Poll::Ready(Some(at(45))));
}

#[test]
fn duration_becomes_an_interval() {
    let mut ticks = Duration::from_millis(20).into_stream(at(100));
    assert_eq!(ticks.poll_next(at(119)), Poll::Pending);
    assert_eq!(ticks.poll_next(at(120)), Poll::Ready(Some(at(120))));
    assert_eq!(ticks.poll_next(at(139)), Poll::Pending);
    assert_eq!(ticks.poll_next(at(140)), Poll::Ready(Some(at(140))));
}
