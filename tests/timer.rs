use clock::time::{Duration, Instant};
use clock::timer::Timer;

fn at_secs(secs: u64) -> Instant {
    Instant::after_origin(Duration::from_secs(secs))
}

#[test]
fn test_new_timer() {
    let duration = Duration::from_secs(10);
    let mut timer = Timer::new(duration);
    assert_eq!(timer.elapsed(), Duration::default());
    assert_eq!(timer.duration(), duration);
}

#[test]
fn test_start_and_stop_timer() {
    let duration = Duration::from_secs(2);
    let mut timer = Timer::new_at(duration, at_secs(0));
    timer.start_at(at_secs(0));
    timer.stop_at(at_secs(1));
    let elapsed = timer.elapsed_at(at_secs(1));
    assert!(elapsed > Duration::from_secs(0));
    assert!(elapsed < duration);
    assert!(timer.remaining_at(at_secs(1)) < duration);
}

#[test]
fn test_remaining_start() {
    let duration = Duration::from_secs(10);
    let mut timer = Timer::new_at(duration, at_secs(0));
    timer.start_at(at_secs(0));
    timer.stop_at(at_secs(3));
    timer.start_at(at_secs(3));
    assert!(timer.remaining_at(Instant::from_nanos(3_000_000_001)) < Duration::from_secs(7));
}

#[test]
fn test_reset_timer() {
    let duration = Duration::from_secs(2);
    let mut timer = Timer::new_at(duration, at_secs(0));
    timer.start_at(at_secs(0));
    timer.reset_at(at_secs(1));
    assert_eq!(timer.elapsed_at(at_secs(1)), Duration::default());
}

#[test]
fn test_remaining() {
    let duration = Duration::from_secs(10);
    let mut timer = Timer::new(duration);

    // Before starting the timer, remaining time should equal the duration
    assert_eq!(timer.remaining(), duration);

    // After starting the timer, remaining time should be less than the duration
    timer.start();
    assert!(timer.remaining() < duration);

    // After stopping the timer, remaining time should be equal to the duration minus the elapsed time
    timer.stop();
    let elapsed_time = timer.elapsed();
    let expected_remaining = duration.saturating_sub(elapsed_time);
    assert_eq!(timer.remaining(), expected_remaining);

    // After resetting the timer, remaining time should equal the duration again
    timer.reset();
    assert_eq!(timer.remaining(), duration);
}

#[test]
fn test_is_done() {
    let duration = Duration::from_secs(5);
    let mut timer = Timer::new_at(duration, at_secs(0));
    assert!(!timer.is_done_at(at_secs(0)));
    timer.start_at(at_secs(0));
    assert!(timer.is_done_at(at_secs(5)));
}

#[test]
fn test_has_not_started() {
    let duration = Duration::from_secs(10);
    let mut timer = Timer::new_at(duration, at_secs(0));
    assert!(timer.has_not_started_at(at_secs(0)));
    timer.start_at(at_secs(0));
    assert!(!timer.has_not_started_at(Instant::from_nanos(1)));
    assert!(!timer.has_not_started_at(at_secs(5)));
}

#[test]
fn five_second_timer_runs_out_across_a_pause() {
    let mut timer = Timer::new_at(Duration::from_secs(5), at_secs(0));
    timer.start_at(at_secs(0));
    timer.stop_at(at_secs(2));
    assert_eq!(timer.elapsed_at(at_secs(4)), Duration::from_secs(2));
    assert_eq!(timer.remaining_at(at_secs(4)), Duration::from_secs(3));
    timer.start_at(at_secs(10));
    assert_eq!(timer.remaining_at(at_secs(13)), Duration::from_secs(0));
    assert!(timer.is_done_at(at_secs(13)));
}

#[test]
fn remaining_never_goes_below_zero() {
    let mut timer = Timer::new_at(Duration::from_secs(1), at_secs(0));
    timer.start_at(at_secs(0));
    assert_eq!(timer.elapsed_at(at_secs(30)), Duration::from_secs(30));
    assert_eq!(timer.remaining_at(at_secs(30)), Duration::from_secs(0));
    assert!(timer.is_done_at(at_secs(30)));
}

#[test]
fn repeated_short_runs_until_done() {
    let mut timer = Timer::new_at(Duration::from_secs(1), at_secs(0));
    let mut now: u128 = 0;
    while timer.remaining_at(Instant::from_nanos(now)) > Duration::from_millis(0) {
        timer.start_at(Instant::from_nanos(now));
        now += 10_000_000;
        timer.stop_at(Instant::from_nanos(now));
        now += 10_000_000;
    }
    assert_eq!(timer.remaining_at(Instant::from_nanos(now)), Duration::from_secs(0));
    assert_eq!(timer.elapsed_at(Instant::from_nanos(now)).as_secs(), 1);
}

#[test]
fn reset_keeps_duration_and_clears_running_time() {
    let mut timer = Timer::new_at(Duration::from_secs(5), at_secs(0));
    timer.start_at(at_secs(0));
    timer.reset_at(at_secs(3));
    assert!(!timer.is_running());
    assert_eq!(timer.duration(), Duration::from_secs(5));
    assert_eq!(timer.remaining_at(at_secs(9)), Duration::from_secs(5));
    assert!(timer.has_not_started_at(at_secs(9)));
}

#[test]
fn start_keeps_earlier_running_time() {
    let mut timer = Timer::new_at(Duration::from_secs(10), at_secs(0));
    timer.start_at(at_secs(0));
    timer.stop_at(at_secs(2));
    timer.start_at(at_secs(5));
    assert!(timer.is_running());
    assert_eq!(timer.elapsed_at(at_secs(6)), Duration::from_secs(3));
    timer.stop_at(at_secs(7));
    assert_eq!(timer.elapsed_at(at_secs(100)), Duration::from_secs(4));
}

#[test]
fn clock_set_back_adds_no_running_time() {
    let mut timer = Timer::new_at(Duration::from_secs(10), at_secs(0));
    timer.start_at(at_secs(5));
    assert_eq!(timer.elapsed_at(at_secs(4)), Duration::from_secs(0));
    timer.stop_at(at_secs(3));
    assert_eq!(timer.elapsed_at(at_secs(3)), Duration::from_secs(0));
    assert!(timer.has_not_started_at(at_secs(3)));
}

#[test]
fn zero_duration_timer_is_done_and_not_started() {
    let mut timer = Timer::new_at(Duration::from_secs(0), at_secs(0));
    timer.start_at(at_secs(0));
    assert!(timer.is_done_at(at_secs(1)));
    assert!(timer.has_not_started_at(at_secs(1)));
}

#[test]
fn copies_of_a_timer_compare_equal() {
    let timer = Timer::new_at(Duration::from_secs(3), at_secs(1));
    let copy = timer;
    assert_eq!(timer, copy);
    assert_ne!(timer, Timer::new_at(Duration::from_secs(4), at_secs(1)));
}
