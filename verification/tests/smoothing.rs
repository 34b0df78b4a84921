use icu_monitor::metrics::{smooth, MetricHistory, SCALE, SMOOTHING_ALPHA};

#[test]
fn first_update_from_zero_is_alpha_times_raw() {
    let mut history = MetricHistory::new();
    history.update_smoothed_scores([1_000_000, 500_000, 0, 7]);
    assert_eq!(history.smoothed_scores(), [300_000, 150_000, 0, 2]);
    assert_eq!(smooth(0, 1_000_000), SMOOTHING_ALPHA);
    assert_eq!(smooth(0, 840_000), 840_000 * SMOOTHING_ALPHA / SCALE);
}

#[test]
fn second_update_with_the_same_raw_score_moves_closer() {
    let mut history = MetricHistory::new();
    let raw = [1_000_000, 800_000, 10, 0];
    history.update_smoothed_scores(raw);
    let first = history.smoothed_scores();
    history.update_smoothed_scores(raw);
    let second = history.smoothed_scores();
    assert_eq!(first, [300_000, 240_000, 3, 0]);
    assert_eq!(second, [510_000, 408_000, 5, 0]);
    for i in 0..4 {
        assert!(first[i] <= second[i]);
        assert!(second[i] <= raw[i]);
    }
}

#[test]
fn repeated_updates_approach_the_raw_score_monotonically() {
    let raw: u64 = 900_000;
    let mut from_below: u64 = 0;
    let mut from_above: u64 = 5_000_000;
    for _ in 0..200 {
        let next_below = smooth(from_below, raw);
        let next_above = smooth(from_above, raw);
        assert!(from_below <= next_below && next_below <= raw);
        assert!(raw <= next_above && next_above <= from_above);
        from_below = next_below;
        from_above = next_above;
    }
    assert!(raw - from_below <= 3);
    assert_eq!(from_above, raw);
}

#[test]
fn smoothing_stays_between_previous_and_raw() {
    assert_eq!(smooth(400_000, 400_000), 400_000);
    assert_eq!(smooth(1_000_000, 0), 700_000);
    assert_eq!(smooth(0, 3), 0);
    assert_eq!(smooth(0, 4), 1);
    assert_eq!(smooth(u64::MAX, u64::MAX), u64::MAX);
    assert_eq!(smooth(u64::MAX, 0), 12_912_720_851_596_686_130);
}

#[test]
fn smoothing_leaves_the_samples_alone() {
    let mut history = MetricHistory::new();
    history.add(1, 2, 3, 4);
    history.add(5, 6, 7, 8);
    history.update_smoothed_scores([100, 200, 300, 400]);
    assert_eq!(history.snapshot(), vec![[1, 2, 3, 4], [5, 6, 7, 8]]);
    history.add(9, 10, 11, 12);
    assert_eq!(history.smoothed_scores(), [30, 60, 90, 120]);
}
