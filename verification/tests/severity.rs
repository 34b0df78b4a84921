use icu_monitor::analysis::{
    aggregate, default_thresholds, determine_status, overall_score, overall_status,
    CRITICAL_MARGIN,
};
use icu_monitor::metrics::{Metric, MetricStatus, Metrics};

#[test]
fn score_at_the_critical_cut_point_is_a_warning() {
    let thresholds = default_thresholds();
    assert_eq!(thresholds, [700_000, 600_000, 650_000, 750_000]);
    for threshold in thresholds {
        assert_eq!(determine_status(threshold + CRITICAL_MARGIN, threshold), MetricStatus::Warning);
        assert_eq!(
            determine_status(threshold + CRITICAL_MARGIN + 1, threshold),
            MetricStatus::Critical
        );
    }
}

#[test]
fn score_at_the_threshold_is_normal() {
    assert_eq!(determine_status(700_000, 700_000), MetricStatus::Normal);
    assert_eq!(determine_status(700_001, 700_000), MetricStatus::Warning);
    assert_eq!(determine_status(0, 0), MetricStatus::Normal);
    assert_eq!(determine_status(0, 700_000), MetricStatus::Normal);
}

#[test]
fn cut_points_near_the_top_of_the_range_do_not_wrap() {
    assert_eq!(determine_status(u64::MAX, u64::MAX), MetricStatus::Normal);
    assert_eq!(determine_status(u64::MAX, u64::MAX - 1), MetricStatus::Warning);
    assert_eq!(determine_status(u64::MAX, u64::MAX - CRITICAL_MARGIN), MetricStatus::Warning);
    assert_eq!(
        determine_status(u64::MAX, u64::MAX - CRITICAL_MARGIN - 1),
        MetricStatus::Critical
    );
}

#[test]
fn severity_is_a_total_order() {
    let order = [
        MetricStatus::Normal,
        MetricStatus::SlightlyAbnormal,
        MetricStatus::Warning,
        MetricStatus::Abnormal,
        MetricStatus::Critical,
    ];
    for (i, a) in order.iter().enumerate() {
        assert_eq!(a.severity() as usize, i);
        for (j, b) in order.iter().enumerate() {
            assert_eq!(a.at_least(b), i >= j);
            assert_eq!(a == b, i == j);
        }
    }
}

#[test]
fn overall_status_uses_the_weights() {
    assert_eq!(overall_score([1_000_000, 0, 0, 0]), 400_000);
    assert_eq!(overall_score([0, 1_000_000, 0, 0]), 350_000);
    assert_eq!(overall_score([0, 0, 1_000_000, 0]), 150_000);
    assert_eq!(overall_score([0, 0, 0, 1_000_000]), 100_000);
    assert_eq!(overall_score([1_000_000, 1_000_000, 1_000_000, 1_000_000]), 1_000_000);
    assert_eq!(overall_score([900_000, 800_000, 700_000, 600_000]), 805_000);
    assert_eq!(overall_status([900_000, 800_000, 700_000, 600_000]), MetricStatus::Critical);
    assert_eq!(overall_status([1_000_000, 1_000_000, 0, 0]), MetricStatus::Warning);
    assert_eq!(overall_status([1_000_000, 0, 1_000_000, 0]), MetricStatus::Normal);
}

#[test]
fn overall_cut_points_are_strict() {
    assert_eq!(overall_status([800_000, 800_000, 800_000, 800_000]), MetricStatus::Warning);
    assert_eq!(overall_status([800_000, 800_000, 800_000, 800_001]), MetricStatus::Critical);
    assert_eq!(overall_status([600_000, 600_000, 600_000, 600_000]), MetricStatus::Normal);
    assert_eq!(overall_status([600_000, 600_000, 600_000, 600_001]), MetricStatus::Warning);
    assert_eq!(overall_score([800_000, 800_000, 800_000, 800_001]), 800_000);
    assert_eq!(overall_status([u64::MAX, u64::MAX, u64::MAX, u64::MAX]), MetricStatus::Critical);
    assert_eq!(overall_score([u64::MAX, u64::MAX, u64::MAX, u64::MAX]), u64::MAX);
}

#[test]
fn a_spike_is_a_warning_whatever_the_score() {
    let latest = [95_000_000, 10_000_000, 10_000_000, 10_000_000];
    let thresholds = default_thresholds();
    let calm = aggregate(latest, [true, false, false, false], [0, 0, 0, 0], thresholds);
    assert_eq!(calm.cpu, Metric { value: 95_000_000, status: MetricStatus::Warning });
    assert_eq!(calm.ram, Metric { value: 10_000_000, status: MetricStatus::Normal });
    assert_eq!(calm.overall_status, MetricStatus::Normal);
    let hot = aggregate(
        latest,
        [true, false, true, false],
        [1_000_000, 1_000_000, 1_000_000, 1_000_000],
        thresholds,
    );
    assert_eq!(
        hot,
        Metrics {
            cpu: Metric { value: 95_000_000, status: MetricStatus::Warning },
            ram: Metric { value: 10_000_000, status: MetricStatus::Critical },
            disk: Metric { value: 10_000_000, status: MetricStatus::Warning },
            network: Metric { value: 10_000_000, status: MetricStatus::Critical },
            overall_status: MetricStatus::Critical,
        }
    );
}

#[test]
fn each_dimension_has_its_own_threshold() {
    let latest = [1, 2, 3, 4];
    let verdict = aggregate(
        latest,
        [false, false, false, false],
        [700_001, 600_000, 850_001, 750_001],
        default_thresholds(),
    );
    assert_eq!(verdict.cpu, Metric { value: 1, status: MetricStatus::Warning });
    assert_eq!(verdict.ram, Metric { value: 2, status: MetricStatus::Normal });
    assert_eq!(verdict.disk, Metric { value: 3, status: MetricStatus::Critical });
    assert_eq!(verdict.network, Metric { value: 4, status: MetricStatus::Warning });
    let tuned = aggregate(
        latest,
        [false, false, false, false],
        [700_001, 600_000, 850_001, 750_001],
        [100_000, 600_000, 900_000, 750_001],
    );
    assert_eq!(tuned.cpu.status, MetricStatus::Critical);
    assert_eq!(tuned.ram.status, MetricStatus::Normal);
    assert_eq!(tuned.disk.status, MetricStatus::Normal);
    assert_eq!(tuned.network.status, MetricStatus::Normal);
}
