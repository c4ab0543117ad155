use trafficscape::timestep::clamp_nanos;
use trafficscape::timestep::TimeStep;
use trafficscape::timestep::NANOS_PER_SECOND;

#[test]
fn new_clock_has_measured_nothing() {
    let clock = TimeStep::new();
    assert_eq!(clock.last_delta(), 0);
}

#[test]
fn delta_is_remembered() {
    let mut clock = TimeStep::new();
    let first = clock.delta();
    assert_eq!(clock.last_delta(), first);
    let second = clock.delta();
    assert_eq!(clock.last_delta(), second);
}

#[test]
fn record_takes_the_given_measurement() {
    let mut clock = TimeStep::new();
    assert_eq!(clock.record(123), 123);
    assert_eq!(clock.last_delta(), 123);
}

#[test]
fn no_rate_until_a_second_has_gathered() {
    let mut clock = TimeStep::new();
    for _ in 0..9 {
        clock.record(100_000_000);
        assert_eq!(clock.frame_rate(), None);
    }
    clock.record(100_000_000);
    assert_eq!(clock.frame_rate(), Some(10));
    for _ in 0..3 {
        clock.record(300_000_000);
        assert_eq!(clock.frame_rate(), None);
    }
    clock.record(300_000_000);
    assert_eq!(clock.frame_rate(), Some(4));
}

#[test]
fn rate_one_nanosecond_short_of_a_second() {
    let mut clock = TimeStep::new();
    clock.record(NANOS_PER_SECOND - 1);
    assert_eq!(clock.frame_rate(), None);
    clock.record(0);
    assert_eq!(clock.frame_rate(), None);
    clock.record(1);
    assert_eq!(clock.frame_rate(), Some(3));
}

#[test]
fn one_long_frame_fills_the_window_alone() {
    let mut clock = TimeStep::new();
    clock.record(u64::MAX);
    assert_eq!(clock.frame_rate(), Some(1));
    clock.record(NANOS_PER_SECOND);
    assert_eq!(clock.frame_rate(), Some(1));
}

#[test]
fn frame_rate_reuses_the_last_measurement() {
    let mut clock = TimeStep::new();
    clock.record(500_000_000);
    assert_eq!(clock.frame_rate(), None);
    assert_eq!(clock.frame_rate(), Some(2));
    assert_eq!(clock.last_delta(), 500_000_000);
}

#[test]
fn clamp_keeps_what_fits() {
    assert_eq!(clamp_nanos(0), 0);
    assert_eq!(clamp_nanos(20_000_000), 20_000_000);
    assert_eq!(clamp_nanos(u128::from(u64::MAX)), u64::MAX);
}

#[test]
fn clamp_saturates() {
    assert_eq!(clamp_nanos(u128::from(u64::MAX) + 1), u64::MAX);
    assert_eq!(clamp_nanos(u128::MAX), u64::MAX);
}

#[test]
fn delta_measures_the_time_since_the_clock_was_made() {
    let outer = std::time::Instant::now();
    let mut clock = TimeStep::new();
    let inner = std::time::Instant::now();
    while inner.elapsed() < std::time::Duration::from_millis(100) {}
    let waited = inner.elapsed().as_nanos();
    let measured = u128::from(clock.delta());
    let at_most = outer.elapsed().as_nanos();
    assert!(measured >= waited);
    assert!(measured >= 100_000_000);
    assert!(measured <= at_most);
    assert_eq!(u128::from(clock.last_delta()), measured);
}

#[test]
fn delta_measures_from_the_previous_call() {
    let mut clock = TimeStep::new();
    let begin = std::time::Instant::now();
    while begin.elapsed() < std::time::Duration::from_millis(100) {}
    let before = std::time::Instant::now();
    let first = clock.delta();
    let second = u128::from(clock.delta());
    assert!(first >= 100_000_000);
    assert!(second <= before.elapsed().as_nanos());
}

#[test]
fn frame_rate_and_record_leave_the_reading() {
    let outer = std::time::Instant::now();
    let mut clock = TimeStep::new();
    let inner = std::time::Instant::now();
    clock.record(5);
    assert_eq!(clock.frame_rate(), None);
    while inner.elapsed() < std::time::Duration::from_millis(50) {}
    let measured = u128::from(clock.delta());
    assert!(measured >= 50_000_000);
    assert!(measured <= outer.elapsed().as_nanos());
}
