use icu_monitor::metrics::{spike_between, MetricHistory, SPIKE_THRESHOLD};

#[test]
fn no_spike_without_a_previous_sample() {
    let mut history = MetricHistory::new();
    assert_eq!(history.detect_spike([90_000_000, 0, 0, 0]), [false, false, false, false]);
    history.add(10_000_000, 10_000_000, 10_000_000, 10_000_000);
    assert_eq!(
        history.detect_spike([90_000_000, 90_000_000, 90_000_000, 90_000_000]),
        [false, false, false, false]
    );
}

#[test]
fn a_difference_of_exactly_the_threshold_is_no_spike() {
    let mut history = MetricHistory::new();
    history.add(10_000_000, 50_000_000, 0, 40_000_000);
    history.add(30_000_000, 30_000_000, 20_000_000, 40_000_000);
    let latest = history.latest().unwrap();
    assert_eq!(history.detect_spike(latest), [false, false, false, false]);
    assert!(!spike_between(10_000_000, 10_000_000 + SPIKE_THRESHOLD));
    assert!(!spike_between(10_000_000 + SPIKE_THRESHOLD, 10_000_000));
}

#[test]
fn a_difference_just_above_the_threshold_is_a_spike() {
    let mut history = MetricHistory::new();
    history.add(10_000_000, 50_000_000, 0, 40_000_000);
    history.add(30_000_001, 29_999_999, 20_000_001, 40_000_000);
    let latest = history.latest().unwrap();
    assert_eq!(history.detect_spike(latest), [true, true, true, false]);
    assert!(spike_between(0, SPIKE_THRESHOLD + 1));
    assert!(spike_between(SPIKE_THRESHOLD + 1, 0));
}

#[test]
fn spikes_compare_with_the_sample_before_the_latest() {
    let mut history = MetricHistory::new();
    history.add(0, 0, 0, 0);
    history.add(50_000_000, 0, 0, 0);
    history.add(60_000_000, 0, 0, 0);
    assert_eq!(history.previous(), Some([50_000_000, 0, 0, 0]));
    assert_eq!(history.detect_spike([60_000_000, 0, 0, 0]), [false, false, false, false]);
    assert_eq!(history.detect_spike([71_000_000, 0, 25_000_000, 0]), [true, false, true, false]);
}

#[test]
fn an_unreachable_host_is_a_spike_once() {
    let mut history = MetricHistory::new();
    history.add(0, 0, 0, 12_000_000);
    history.add(0, 0, 0, u64::MAX);
    assert_eq!(history.detect_spike(history.latest().unwrap()), [false, false, false, true]);
    history.add(0, 0, 0, u64::MAX);
    assert_eq!(history.detect_spike(history.latest().unwrap()), [false, false, false, false]);
}
