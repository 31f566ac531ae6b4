use clock::common::{format_time, LapTime, Stopwatch};
use clock::time::{Duration, Instant};

fn at_secs(secs: u64) -> Instant {
    Instant::after_origin(Duration::from_secs(secs))
}

#[test]
fn common_test_stopwatch_start_stop() {
    let mut stopwatch = Stopwatch::new();

    assert!(!stopwatch.is_running());
    assert_eq!(stopwatch.elapsed_time_at(at_secs(0)), Duration::from_secs(0));

    stopwatch.start_at(at_secs(0));
    stopwatch.stop_at(at_secs(1));

    assert!(!stopwatch.is_running());
    assert_eq!(stopwatch.elapsed_time().as_secs(), 1);
}

#[test]
fn common_test_stopwatch_reset() {
    let mut stopwatch = Stopwatch::new();

    stopwatch.start_at(at_secs(0));
    stopwatch.stop_at(at_secs(1));

    assert!(!stopwatch.is_running());
    assert_eq!(stopwatch.elapsed_time().as_secs(), 1);

    stopwatch.reset();

    assert!(!stopwatch.is_running());
    assert_eq!(stopwatch.elapsed_time(), Duration::from_secs(0));
}

#[test]
fn common_test_stopwatch_add_lap() {
    let mut stopwatch = Stopwatch::new();

    stopwatch.start_at(at_secs(0));
    stopwatch.add_lap_at(at_secs(1));
    stopwatch.add_lap_at(at_secs(3));
    stopwatch.stop_at(at_secs(6));

    let lap_times = stopwatch.lap_times();

    assert_eq!(lap_times.len(), 2);

    assert_eq!(lap_times[0].lap_number(), 1);
    assert_eq!(lap_times[0].split_time().as_secs(), 1);
    assert_eq!(lap_times[0].total_time().as_secs(), 1);

    assert_eq!(lap_times[1].lap_number(), 2);
    assert_eq!(lap_times[1].split_time().as_secs(), 2);
    assert_eq!(lap_times[1].total_time().as_secs(), 3);
}

#[test]
fn common_test_stopwatch_format_time() {
    let duration = Duration::new(65, 123_000_000);

    assert_eq!(format_time(duration), "01:05.123");
}

#[test]
fn monotonic_pause_is_left_out() {
    let mut stopwatch = Stopwatch::new();
    stopwatch.start_at(at_secs(0));
    stopwatch.stop_at(at_secs(1));
    stopwatch.start_at(at_secs(40));
    assert_eq!(stopwatch.elapsed_time_at(at_secs(41)), Duration::from_secs(2));
    stopwatch.add_lap_at(at_secs(41));
    assert_eq!(stopwatch.lap_times()[0].total_time(), Duration::from_secs(2));
    assert_eq!(stopwatch.lap_times()[0].split_time(), Duration::from_secs(2));
}

#[test]
fn monotonic_readings_that_go_back_give_zero_spans() {
    let mut stopwatch = Stopwatch::new();
    stopwatch.start_at(at_secs(10));
    assert_eq!(stopwatch.elapsed_time_at(at_secs(3)), Duration::from_secs(0));
    stopwatch.add_lap_at(at_secs(4));
    assert_eq!(stopwatch.lap_times().len(), 1);
    assert_eq!(stopwatch.lap_times()[0].total_time(), Duration::from_secs(0));
    stopwatch.stop_at(at_secs(2));
    assert!(!stopwatch.is_running());
    assert_eq!(stopwatch.elapsed_time(), Duration::from_secs(0));
}

#[test]
fn monotonic_stopwatch_on_its_clock() {
    let mut stopwatch = Stopwatch::default();
    stopwatch.start();
    stopwatch.add_lap();
    stopwatch.stop();
    assert_eq!(stopwatch.lap_times().len(), 1);
    assert!(stopwatch.elapsed_time() >= stopwatch.lap_times()[0].total_time());
    stopwatch.reset();
    assert!(stopwatch.lap_times().is_empty());
}

#[test]
fn lap_time_keeps_its_parts() {
    let lap = LapTime::new(7, Duration::from_millis(1_500), Duration::from_secs(9));
    assert_eq!(lap.lap_number(), 7);
    assert_eq!(lap.split_time(), Duration::from_millis(1_500));
    assert_eq!(lap.total_time(), Duration::from_secs(9));
}

#[test]
fn format_time_shows_three_digits_of_milliseconds() {
    assert_eq!(format_time(Duration::from_secs(0)), "00:00.000");
    assert_eq!(format_time(Duration::from_millis(7)), "00:00.007");
    assert_eq!(format_time(Duration::new(3_599, 999_999_999)), "59:59.999");
    assert_eq!(format_time(Duration::from_secs(3_600)), "60:00.000");
}
