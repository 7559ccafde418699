//! Tests of the timer conversions and busy-wait planning.

use hos_kernel::time::counter_to_duration;
use hos_kernel::time::duration_to_counter;
use hos_kernel::time::max_duration;
use hos_kernel::time::resolution;
use hos_kernel::time::time_manager;
use hos_kernel::time::Duration;
use hos_kernel::time::TimeManager;

#[test]
fn resolution_values() {
    // At 1 GHz one tick is exactly one nanosecond.
    let r = resolution(1_000_000_000);
    assert_eq!(r.as_secs(), 0);
    assert_eq!(r.subsec_nanos(), 1);
    // At 62.5 MHz one tick is exactly 16 nanoseconds.
    let r = resolution(62_500_000);
    assert_eq!(r.subsec_nanos(), 16);
    // At 54 MHz one tick is 18.5185.. nanoseconds, rounded down.
    let r = resolution(54_000_000);
    assert_eq!(r.subsec_nanos(), 18);
}

#[test]
fn counter_to_duration_exact_values() {
    // 90 million ticks at 54 MHz: one second and two thirds of a second.
    let d = counter_to_duration(90_000_000, 54_000_000);
    assert_eq!(d.as_secs(), 1);
    assert_eq!(d.subsec_nanos(), 666_666_666);
    assert_eq!(d.as_nanos(), 1_666_666_666);
    // Zero ticks is the zero duration.
    let d = counter_to_duration(0, 54_000_000);
    assert_eq!(d.as_nanos(), 0);
}

#[test]
fn timer_round_trip_at_exact_frequency() {
    // 62.5 MHz divides a second's nanoseconds exactly: every counter value
    // survives the round trip.
    for v in [0u64, 1, 7, 12_345, 62_500_000, 62_500_001, u64::MAX / 16] {
        let d = counter_to_duration(v, 62_500_000);
        assert_eq!(duration_to_counter(&d, 62_500_000), Ok(v));
    }
    for v in [0u64, 1, 999_999_999, 1_000_000_000] {
        let d = counter_to_duration(v, 1_000_000_000);
        assert_eq!(duration_to_counter(&d, 1_000_000_000), Ok(v));
    }
}

#[test]
fn whole_seconds_round_trip_at_any_frequency() {
    let d = Duration::from_secs(1);
    assert_eq!(duration_to_counter(&d, 54_000_000), Ok(54_000_000));
    let d = Duration::from_secs(3);
    assert_eq!(duration_to_counter(&d, 54_000_000), Ok(162_000_000));
}

#[test]
fn sub_resolution_duration_converts_to_zero() {
    // At 1 kHz the resolution is a millisecond; a microsecond is below it.
    let d = Duration::new(0, 1_000);
    assert_eq!(duration_to_counter(&d, 1_000), Ok(0));
}

#[test]
fn too_large_duration_is_an_error_not_a_wrap() {
    // At 1 Hz the counter can represent u64::MAX seconds; more is an error.
    let d = Duration::new(u64::MAX, 999_999_999);
    let r = duration_to_counter(&d, 1);
    assert_eq!(r, Err("Conversion error; Duration too big"));
    // The maximum itself converts fine.
    let m = max_duration(1);
    assert_eq!(m.as_secs(), u64::MAX);
    assert_eq!(duration_to_counter(&m, 1), Ok(u64::MAX));
}

#[test]
fn duration_accessors() {
    let d = Duration::new(2, 345_678_901);
    assert_eq!(d.as_secs(), 2);
    assert_eq!(d.subsec_nanos(), 345_678_901);
    assert_eq!(d.subsec_micros(), 345_678);
    assert_eq!(d.as_nanos(), 2_345_678_901);
    let d = Duration::from_micros(1);
    assert_eq!(d.as_nanos(), 1_000);
    let d = Duration::from_micros(2_500_000);
    assert_eq!(d.as_secs(), 2);
    assert_eq!(d.subsec_nanos(), 500_000_000);
    assert!(Duration::zero().as_nanos() == 0);
}

#[test]
fn duration_ordering() {
    let small = Duration::new(1, 999_999_999);
    let big = Duration::new(2, 0);
    assert!(small.lt(&big));
    assert!(!big.lt(&small));
    assert!(big.gt(&small));
    assert!(!small.lt(&small));
}

#[test]
fn time_manager_uptime_and_resolution() {
    let tm = time_manager();
    let d = tm.uptime(54_000_000, 90_000_000);
    assert_eq!(d.as_secs(), 1);
    assert_eq!(d.subsec_nanos(), 666_666_666);
    assert_eq!(tm.resolution(62_500_000).subsec_nanos(), 16);
    let tm2 = TimeManager::new();
    assert_eq!(tm2.resolution(1_000_000_000).subsec_nanos(), 1);
}

#[test]
fn spin_for_plans_a_target() {
    let tm = time_manager();
    // One second at 54 MHz from counter value 1000.
    let target = tm.spin_for(54_000_000, 1_000, &Duration::from_secs(1));
    assert_eq!(target, Ok(54_001_000));
    // The target wraps like the hardware counter does.
    let target = tm.spin_for(54_000_000, u64::MAX, &Duration::from_secs(1));
    assert_eq!(target, Ok(53_999_999));
}

#[test]
fn spin_for_rejects_unrepresentable_durations() {
    let tm = time_manager();
    let d = Duration::new(u64::MAX, 999_999_999);
    let r = tm.spin_for(1, 0, &d);
    assert_eq!(r, Err("Conversion error; Duration too big"));
}
