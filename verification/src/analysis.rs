//! Turning the history and the outlier scores of one cycle into a verdict.

use crate::metrics::{
    ewma, spike_flags, HistoryModel, Metric, MetricHistory, MetricStatus, Metrics, SCALE,
};
use vstd::prelude::*;

verus! {

/// Samples the history must hold before anything is scored.
pub const MIN_SAMPLES: usize = 20;

/// A smoothed score this far above its threshold is critical (0.2).
pub const CRITICAL_MARGIN: u64 = 200_000;

/// The weighted score above which the overall status is a warning (0.6).
pub const OVERALL_WARNING: u64 = 600_000;

/// The weighted score above which the overall status is critical (0.8).
pub const OVERALL_CRITICAL: u64 = 800_000;

/// Trees in the outlier model.
pub const N_TREES: usize = 100;

/// Extension level of the outlier model.
pub const EXTENSION_LEVEL: usize = 1;

/// Warning thresholds for cpu, ram, disk and network: 0.7, 0.6, 0.65, 0.75.
pub open spec fn default_threshold_values() -> [u64; 4] {
    [700_000u64, 600_000u64, 650_000u64, 750_000u64]
}

/// Weights of cpu, ram, disk and network in the overall score: 0.4, 0.35,
/// 0.15, 0.10.
pub open spec fn weight_values() -> [u64; 4] {
    [400_000u64, 350_000u64, 150_000u64, 100_000u64]
}

/// Status of a smoothed score against its warning threshold. Both cut points
/// are strict.
pub open spec fn status_for(score: u64, threshold: u64) -> MetricStatus {
    if score > threshold + CRITICAL_MARGIN {
        MetricStatus::Critical
    } else if score > threshold {
        MetricStatus::Warning
    } else {
        MetricStatus::Normal
    }
}

/// A score exactly at the critical cut point is a warning; anything above it
/// is critical. Likewise a score exactly at the threshold is normal.
pub proof fn lemma_cut_points_are_strict(score: u64, threshold: u64)
    ensures
        score == threshold + CRITICAL_MARGIN ==> status_for(score, threshold)
            == MetricStatus::Warning,
        score > threshold + CRITICAL_MARGIN ==> status_for(score, threshold)
            == MetricStatus::Critical,
        score == threshold ==> status_for(score, threshold) == MetricStatus::Normal,
        threshold < score <= threshold + CRITICAL_MARGIN ==> status_for(score, threshold)
            == MetricStatus::Warning,
{
}

/// A higher score never gets a milder status.
pub proof fn lemma_status_grows_with_score(lower: u64, higher: u64, threshold: u64)
    requires
        lower <= higher,
    ensures
        status_for(lower, threshold).rank() <= status_for(higher, threshold).rank(),
{
}

/// Status of one dimension: a spike is a warning whatever the score says.
pub open spec fn dimension_status(spike: bool, score: u64, threshold: u64) -> MetricStatus {
    if spike {
        MetricStatus::Warning
    } else {
        status_for(score, threshold)
    }
}

/// The weighted sum of the smoothed scores, in units of `1 / (SCALE * SCALE)`.
pub open spec fn weighted_sum(smoothed: [u64; 4]) -> int {
    let weights = weight_values();
    weights[0] * smoothed[0] + weights[1] * smoothed[1] + weights[2] * smoothed[2] + weights[3]
        * smoothed[3]
}

/// Overall status from the weighted sum. Both cut points are strict.
pub open spec fn overall_status_for(smoothed: [u64; 4]) -> MetricStatus {
    if weighted_sum(smoothed) > OVERALL_CRITICAL * SCALE {
        MetricStatus::Critical
    } else if weighted_sum(smoothed) > OVERALL_WARNING * SCALE {
        MetricStatus::Warning
    } else {
        MetricStatus::Normal
    }
}

/// The verdict when nothing was scored: every status normal, every value 0.
pub open spec fn neutral_verdict() -> Metrics {
    let quiet = Metric { value: 0, status: MetricStatus::Normal };
    Metrics { cpu: quiet, ram: quiet, disk: quiet, network: quiet, overall_status: MetricStatus::Normal }
}

/// The verdict for the latest sample, given spike flags, smoothed scores and
/// thresholds.
pub open spec fn verdict_for(
    latest: [u64; 4],
    spikes: [bool; 4],
    smoothed: [u64; 4],
    thresholds: [u64; 4],
) -> Metrics {
    Metrics {
        cpu: Metric {
            value: latest[0],
            status: dimension_status(spikes[0], smoothed[0], thresholds[0]),
        },
        ram: Metric {
            value: latest[1],
            status: dimension_status(spikes[1], smoothed[1], thresholds[1]),
        },
        disk: Metric {
            value: latest[2],
            status: dimension_status(spikes[2], smoothed[2], thresholds[2]),
        },
        network: Metric {
            value: latest[3],
            status: dimension_status(spikes[3], smoothed[3], thresholds[3]),
        },
        overall_status: overall_status_for(smoothed),
    }
}

/// The weights add up to one, so the weighted sum lies within any range that
/// holds all four smoothed scores.
pub proof fn lemma_overall_between_scores(smoothed: [u64; 4], low: u64, high: u64)
    requires
        forall|i: int| 0 <= i < 4 ==> low <= #[trigger] smoothed[i] <= high,
    ensures
        weight_values()[0] + weight_values()[1] + weight_values()[2] + weight_values()[3]
            == SCALE,
        low * SCALE <= weighted_sum(smoothed) <= high * SCALE,
        high <= OVERALL_WARNING ==> overall_status_for(smoothed) == MetricStatus::Normal,
        low > OVERALL_CRITICAL ==> overall_status_for(smoothed) == MetricStatus::Critical,
{
    assert(low <= smoothed[0] <= high);
    assert(low <= smoothed[1] <= high);
    assert(low <= smoothed[2] <= high);
    assert(low <= smoothed[3] <= high);
    assert(low * SCALE == low * 1_000_000);
    assert(high * SCALE == high * 1_000_000);
    assert(OVERALL_WARNING * SCALE == 600_000 * 1_000_000);
    assert(OVERALL_CRITICAL * SCALE == 800_000 * 1_000_000);
}

/// A spike makes its own dimension a warning, whatever the score; the
/// overall status does not look at spikes at all.
pub proof fn lemma_spikes_escalate_their_dimension(
    latest: [u64; 4],
    spikes: [bool; 4],
    others: [bool; 4],
    smoothed: [u64; 4],
    thresholds: [u64; 4],
)
    ensures
        spikes[0] ==> verdict_for(latest, spikes, smoothed, thresholds).cpu.status
            == MetricStatus::Warning,
        spikes[1] ==> verdict_for(latest, spikes, smoothed, thresholds).ram.status
            == MetricStatus::Warning,
        spikes[2] ==> verdict_for(latest, spikes, smoothed, thresholds).disk.status
            == MetricStatus::Warning,
        spikes[3] ==> verdict_for(latest, spikes, smoothed, thresholds).network.status
            == MetricStatus::Warning,
        verdict_for(latest, spikes, smoothed, thresholds).overall_status == verdict_for(
            latest,
            others,
            smoothed,
            thresholds,
        ).overall_status,
{
}

/// Determines the status of a metric from its smoothed score and threshold.
pub fn determine_status(score: u64, threshold: u64) -> (status: MetricStatus)
    ensures
        status == status_for(score, threshold),
{
    if score > threshold && score - threshold > CRITICAL_MARGIN {
        MetricStatus::Critical
    } else if score > threshold {
        MetricStatus::Warning
    } else {
        MetricStatus::Normal
    }
}

/// The default warning thresholds.
pub fn default_thresholds() -> (thresholds: [u64; 4])
    ensures
        thresholds == default_threshold_values(),
{
    [700_000, 600_000, 650_000, 750_000]
}

/// The overall status of a set of smoothed scores.
pub fn overall_status(smoothed: [u64; 4]) -> (status: MetricStatus)
    ensures
        status == overall_status_for(smoothed),
{
    let sum: u128 = 400_000u128 * smoothed[0] as u128 + 350_000u128 * smoothed[1] as u128
        + 150_000u128 * smoothed[2] as u128 + 100_000u128 * smoothed[3] as u128;
    let critical: u128 = OVERALL_CRITICAL as u128 * SCALE as u128;
    let warning: u128 = OVERALL_WARNING as u128 * SCALE as u128;
    if sum > critical {
        MetricStatus::Critical
    } else if sum > warning {
        MetricStatus::Warning
    } else {
        MetricStatus::Normal
    }
}

/// The overall weighted score in millionths, rounded down.
pub fn overall_score(smoothed: [u64; 4]) -> (score: u64)
    ensures
        score == weighted_sum(smoothed) / 1_000_000,
{
    let sum: u128 = 400_000u128 * smoothed[0] as u128 + 350_000u128 * smoothed[1] as u128
        + 150_000u128 * smoothed[2] as u128 + 100_000u128 * smoothed[3] as u128;
    (sum / 1_000_000u128) as u64
}

fn status_of(spike: bool, score: u64, threshold: u64) -> (status: MetricStatus)
    ensures
        status == dimension_status(spike, score, threshold),
{
    if spike {
        MetricStatus::Warning
    } else {
        determine_status(score, threshold)
    }
}

/// Combines the latest sample, its spike flags and the smoothed scores into a
/// verdict.
pub fn aggregate(
    latest: [u64; 4],
    spikes: [bool; 4],
    smoothed: [u64; 4],
    thresholds: [u64; 4],
) -> (verdict: Metrics)
    ensures
        verdict == verdict_for(latest, spikes, smoothed, thresholds),
{
    Metrics {
        cpu: Metric { value: latest[0], status: status_of(spikes[0], smoothed[0], thresholds[0]) },
        ram: Metric { value: latest[1], status: status_of(spikes[1], smoothed[1], thresholds[1]) },
        disk: Metric { value: latest[2], status: status_of(spikes[2], smoothed[2], thresholds[2]) },
        network: Metric {
            value: latest[3],
            status: status_of(spikes[3], smoothed[3], thresholds[3]),
        },
        overall_status: overall_status(smoothed),
    }
}

/// How the outlier model is to be built.
#[derive(Clone, Copy, Debug, PartialEq, Eq, Structural)]
pub struct ModelOptions {
    /// Number of trees in the ensemble.
    pub n_trees: usize,
    /// Number of training samples drawn for each tree.
    pub sample_size: usize,
    /// Depth limit of a tree; `None` leaves it to the sample size.
    pub max_tree_depth: Option<usize>,
    /// Degrees of freedom of a split.
    pub extension_level: usize,
}

/// What the outlier model is asked in one cycle: the window to train on and
/// one query per dimension.
#[derive(Debug, PartialEq, Eq)]
pub struct ScoringRequest {
    pub training: Vec<[u64; 4]>,
    pub options: ModelOptions,
    pub queries: [[u64; 4]; 4],
}

/// The options for a model trained on `n` samples: every tree sees the whole
/// window.
pub open spec fn options_for(n: usize) -> ModelOptions {
    ModelOptions {
        n_trees: N_TREES,
        sample_size: n,
        max_tree_depth: None,
        extension_level: EXTENSION_LEVEL,
    }
}

/// `sample` with every dimension but `dimension` set to zero.
pub open spec fn masked(sample: [u64; 4], dimension: int) -> [u64; 4] {
    [
        if dimension == 0 {
            sample[0]
        } else {
            0
        },
        if dimension == 1 {
            sample[1]
        } else {
            0
        },
        if dimension == 2 {
            sample[2]
        } else {
            0
        },
        if dimension == 3 {
            sample[3]
        } else {
            0
        },
    ]
}

/// Builds the query that scores one dimension of `sample` alone.
pub fn masked_query(sample: [u64; 4], dimension: usize) -> (query: [u64; 4])
    ensures
        query == masked(sample, dimension as int),
{
    let mut query: [u64; 4] = [0, 0, 0, 0];
    if dimension < 4 {
        query[dimension] = sample[dimension];
    }
    query
}

/// What to ask the outlier model for the current window, or `None` while the
/// window is too short to be scored.
pub fn scoring_request(history: &MetricHistory) -> (request: Option<ScoringRequest>)
    ensures
        request is None <==> history@.samples.len() < MIN_SAMPLES,
        request matches Some(r) ==> {
            &&& r.training@ == history@.samples
            &&& r.options == options_for(history@.samples.len() as usize)
            &&& forall|i: int|
                0 <= i < 4 ==> #[trigger] r.queries[i] == masked(history@.latest()->0, i)
        },
{
    match history.latest() {
        Some(latest) => {
            let n = history.len();
            if n < MIN_SAMPLES {
                None
            } else {
                Some(
                    ScoringRequest {
                        training: history.snapshot(),
                        options: ModelOptions {
                            n_trees: N_TREES,
                            sample_size: n,
                            max_tree_depth: None,
                            extension_level: EXTENSION_LEVEL,
                        },
                        queries: [
                            masked_query(latest, 0),
                            masked_query(latest, 1),
                            masked_query(latest, 2),
                            masked_query(latest, 3),
                        ],
                    },
                )
            }
        },
        None => None,
    }
}

/// Whether a cycle is scored: the window is long enough and the model gave
/// its scores.
pub open spec fn scored(samples: Seq<[u64; 4]>, raw_scores: Option<[u64; 4]>) -> bool {
    samples.len() >= MIN_SAMPLES && raw_scores is Some
}

/// What one cycle does: the samples stay. A scored cycle folds each raw
/// score into its smoothed score and judges the latest sample by the new
/// smoothed scores; any other cycle changes nothing and is neutral.
pub open spec fn analyzed(
    before: HistoryModel,
    raw_scores: Option<[u64; 4]>,
    thresholds: [u64; 4],
    after: HistoryModel,
    verdict: Metrics,
) -> bool {
    &&& after.samples == before.samples
    &&& if scored(before.samples, raw_scores) {
        &&& forall|i: int|
            0 <= i < 4 ==> after.smoothed[i] == ewma(before.smoothed[i], raw_scores->0[i])
        &&& verdict == verdict_for(
            before.latest()->0,
            spike_flags(before.previous(), before.latest()->0),
            after.smoothed,
            thresholds,
        )
    } else {
        &&& after == before
        &&& verdict == neutral_verdict()
    }
}

/// A cycle on a window shorter than `MIN_SAMPLES`, or without scores from
/// the model, is neutral and leaves the smoothed scores alone.
pub proof fn lemma_unscored_cycle_is_neutral(
    before: HistoryModel,
    raw_scores: Option<[u64; 4]>,
    thresholds: [u64; 4],
    after: HistoryModel,
    verdict: Metrics,
)
    requires
        analyzed(before, raw_scores, thresholds, after, verdict),
        before.samples.len() < MIN_SAMPLES || raw_scores is None,
    ensures
        after == before,
        verdict == neutral_verdict(),
        verdict.overall_status == MetricStatus::Normal,
{
}

/// `analyze_status` with warning thresholds of the caller's choice.
pub fn analyze_with_thresholds(
    history: &mut MetricHistory,
    raw_scores: Option<[u64; 4]>,
    thresholds: [u64; 4],
) -> (verdict: Metrics)
    ensures
        analyzed(old(history)@, raw_scores, thresholds, final(history)@, verdict),
{
    let quiet = Metric { value: 0, status: MetricStatus::Normal };
    let neutral = Metrics {
        cpu: quiet,
        ram: quiet,
        disk: quiet,
        network: quiet,
        overall_status: MetricStatus::Normal,
    };
    if history.len() < MIN_SAMPLES {
        return neutral;
    }
    match (raw_scores, history.latest()) {
        (Some(scores), Some(latest)) => {
            history.update_smoothed_scores(scores);
            let spikes = history.detect_spike(latest);
            aggregate(latest, spikes, history.smoothed_scores(), thresholds)
        },
        _ => neutral,
    }
}

/// The verdict of one cycle. `raw_scores` holds the outlier score of each
/// dimension of the latest sample, or `None` when the model could not be
/// trained. With fewer than `MIN_SAMPLES` samples, or without scores, the
/// verdict is neutral and the history is left as it was.
pub fn analyze_status(history: &mut MetricHistory, raw_scores: Option<[u64; 4]>) -> (verdict:
    Metrics)
    ensures
        analyzed(
            old(history)@,
            raw_scores,
            default_threshold_values(),
            final(history)@,
            verdict,
        ),
{
    analyze_with_thresholds(history, raw_scores, default_thresholds())
}

} // verus!
