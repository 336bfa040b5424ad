use itj_tiny_deps::range_duration::{
    range_duration_start, without_random_steps, RandomizedRangeDurationArgs, RangeDurationArgs,
    RangeDurationStop,
};
use itj_tiny_deps::time::{
    date_from_command_output, duration_add_i64_secs, range_duration_step, round_duration_down,
    round_duration_up, MockTime, Time, MOCK_TIME_START, NANOS_PER_SECOND,
};
use std::time::{Duration, Instant};

const MAX_ERROR_MOCK: u64 = 0;
/// 2025-01-29: I've consistently been seeing errors of ~1.1us, and am
/// therefore increasing max error from 1us to 10us
const MAX_ERROR_REAL: Duration = Duration::from_nanos(10_000);
const SLEEP_DURATION: u64 = 100 * NANOS_PER_SECOND;

#[test]
fn test_basic_sleep() {
    // Setup
    let mut time = MockTime::default();

    // Save start times
    let start_dur = time.now_duration();
    let start_instant = time.now_instant();
    let realtime_start = Instant::now();

    // Sleep
    time.sleep(SLEEP_DURATION);

    // Save stop times
    let realtime_stop = Instant::now();
    let stop_dur = time.now_duration();
    let stop_instant = time.now_instant();

    // Validate results
    let delta_d = stop_dur - start_dur;
    println!("delta_d={delta_d:?}");
    assert!(SLEEP_DURATION.abs_diff(delta_d) <= MAX_ERROR_MOCK);
    let delta_i = stop_instant - start_instant;
    println!("delta_i={delta_i:?}");
    assert!(SLEEP_DURATION.abs_diff(delta_i) <= MAX_ERROR_MOCK);
    let delta_real = realtime_stop - realtime_start;
    println!("delta_real={delta_real:?}");
    assert!(delta_real <= MAX_ERROR_REAL);
}

/// Verify that calling sleep on a clone will cause time to advance on
/// the original, and visa-versa.
#[test]
fn test_clone() {
    // Setup
    let mut orig = MockTime::default();
    let start = orig.now_duration();
    let mut clone = orig.shallow_clone();

    // Run test
    orig.sleep(SLEEP_DURATION);
    clone.sleep(SLEEP_DURATION * 2);
    let expected_stop = start + 3 * SLEEP_DURATION;
    let stop_orig = orig.now_duration();
    let stop_clone = clone.now_duration();

    // Validate original
    let delta_orig = expected_stop.abs_diff(stop_orig);
    println!("delta_orig={delta_orig:?}");
    assert!(delta_orig <= MAX_ERROR_MOCK);

    // Validate clone
    let delta_clone = expected_stop.abs_diff(stop_clone);
    println!("delta_clone={delta_clone:?}");
    assert!(delta_clone <= MAX_ERROR_MOCK);
}

#[test]
fn mock_time_starts_at_100000_seconds() {
    let time = MockTime::new();
    assert_eq!(time.now_duration(), 100_000 * NANOS_PER_SECOND);
    assert_eq!(time.now_instant(), MOCK_TIME_START);
}

#[test]
fn duration_add_i64_secs_both_signs() {
    assert_eq!(duration_add_i64_secs(10 * NANOS_PER_SECOND, 5), 15 * NANOS_PER_SECOND);
    assert_eq!(duration_add_i64_secs(10 * NANOS_PER_SECOND, -4), 6 * NANOS_PER_SECOND);
    assert_eq!(duration_add_i64_secs(7, 0), 7);
    // Adding then subtracting gives the span back.
    let d = 123_456_789;
    assert_eq!(duration_add_i64_secs(duration_add_i64_secs(d, 3), -3), d);
}

#[test]
fn round_duration_down_and_up() {
    let d = 125 * NANOS_PER_SECOND + 400;
    assert_eq!(round_duration_down(d, 60), 120 * NANOS_PER_SECOND);
    assert_eq!(round_duration_up(d, 60), 180 * NANOS_PER_SECOND);
    // A span that already is a multiple still moves up by one multiple.
    assert_eq!(round_duration_down(120 * NANOS_PER_SECOND, 60), 120 * NANOS_PER_SECOND);
    assert_eq!(round_duration_up(120 * NANOS_PER_SECOND, 60), 180 * NANOS_PER_SECOND);
    // Sub-second parts are dropped.
    assert_eq!(round_duration_down(999_999_999, 1), 0);
}

#[test]
fn range_duration_step_values() {
    assert_eq!(range_duration_step(10, 5, 1, 2, 100), Some((Some(11), 17)));
    assert_eq!(range_duration_step(10, 5, 0, 0, 10), Some((None, 15)));
    assert_eq!(range_duration_step(u64::MAX, 5, 1, 0, 10), None);
}

#[test]
fn date_output_loses_its_last_byte() {
    assert_eq!(
        date_from_command_output(b"2025-01-29T10:00:00+00:00\n"),
        Some("2025-01-29T10:00:00+00:00".to_string())
    );
    assert_eq!(date_from_command_output(b""), None);
    assert_eq!(date_from_command_output(&[0xff, b'\n']), None);
}

#[test]
fn range_duration_stop_values() {
    let mut fixed = RangeDurationStop::<fn() -> u64>::Fixed(5);
    assert_eq!(fixed.get_value(), 5);
    let mut computed = RangeDurationStop::Callback(|| 7u64);
    assert_eq!(computed.get_value(), 7);
}

#[test]
fn range_duration_start_with_and_without_pre_step() {
    let args = RangeDurationArgs { start: 10, step: 3, stop: RangeDurationStop::<fn() -> u64>::Fixed(100) };
    let plain = without_random_steps(args.clone());
    assert_eq!(plain.step_rand_offset, NANOS_PER_SECOND);
    assert_eq!(plain.step_rand_drift, NANOS_PER_SECOND);
    assert!(!plain.do_random_pre_step);
    assert_eq!(plain.args_nonrandom.start, 10);
    assert_eq!(range_duration_start(&plain, 1, 2, 4), Some(10));

    let randomized = RandomizedRangeDurationArgs {
        args_nonrandom: args,
        step_rand_offset: 2,
        step_rand_drift: 5,
        do_random_pre_step: true,
    };
    assert_eq!(range_duration_start(&randomized, 1, 2, 4), Some(17));
    assert_eq!(range_duration_start(&randomized, u64::MAX, 0, 0), None);
}
