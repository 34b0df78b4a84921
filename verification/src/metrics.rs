//! The rolling window of samples, the smoothed scores that persist between
//! cycles, and spike detection between consecutive samples.

use std::collections::VecDeque;
use vstd::prelude::*;

verus! {

/// One fixed-point unit: a value `v` stands for `v / SCALE`.
pub const SCALE: u64 = 1_000_000;

/// Number of samples the history keeps.
pub const MAX_HISTORY: usize = 100;

/// A jump between consecutive readings above this is a spike (20 units).
pub const SPIKE_THRESHOLD: u64 = 20_000_000;

/// Weight of the newest raw score in the moving average (0.3).
pub const SMOOTHING_ALPHA: u64 = 300_000;

/// How far a metric is from normal. The variants are listed from the mildest
/// to the most severe.
#[derive(Clone, Copy, Debug, PartialEq, Eq, Structural)]
pub enum MetricStatus {
    Normal,
    SlightlyAbnormal,
    Warning,
    Abnormal,
    Critical,
}

impl MetricStatus {
    /// Position in the severity order, `Normal` being 0.
    pub open spec fn rank(self) -> nat {
        match self {
            MetricStatus::Normal => 0,
            MetricStatus::SlightlyAbnormal => 1,
            MetricStatus::Warning => 2,
            MetricStatus::Abnormal => 3,
            MetricStatus::Critical => 4,
        }
    }

    /// Position in the severity order, `Normal` being 0.
    pub fn severity(&self) -> (level: u8)
        ensures
            level == self.rank(),
    {
        match self {
            MetricStatus::Normal => 0,
            MetricStatus::SlightlyAbnormal => 1,
            MetricStatus::Warning => 2,
            MetricStatus::Abnormal => 3,
            MetricStatus::Critical => 4,
        }
    }

    /// Severity is a total order: statuses of the same rank are the same
    /// status, and any two ranks compare.
    pub proof fn lemma_rank_orders(a: MetricStatus, b: MetricStatus)
        ensures
            a.rank() == b.rank() <==> a == b,
            a.rank() <= b.rank() || b.rank() <= a.rank(),
            MetricStatus::Normal.rank() < MetricStatus::SlightlyAbnormal.rank()
                < MetricStatus::Warning.rank() < MetricStatus::Abnormal.rank()
                < MetricStatus::Critical.rank(),
    {
    }

    /// Whether `self` is at least as severe as `other`.
    pub fn at_least(&self, other: &MetricStatus) -> (yes: bool)
        ensures
            yes == (self.rank() >= other.rank()),
    {
        self.severity() >= other.severity()
    }
}

/// A reading together with its status.
#[derive(Clone, Copy, Debug, PartialEq, Eq, Structural)]
pub struct Metric {
    pub value: u64,
    pub status: MetricStatus,
}

/// The verdict of one monitoring cycle.
#[derive(Clone, Copy, Debug, PartialEq, Eq, Structural)]
pub struct Metrics {
    pub cpu: Metric,
    pub ram: Metric,
    pub disk: Metric,
    pub network: Metric,
    pub overall_status: MetricStatus,
}

/// The window after `sample` has been recorded: appended at the end, with the
/// oldest entry dropped first when the window is already full.
pub open spec fn pushed(samples: Seq<[u64; 4]>, sample: [u64; 4]) -> Seq<[u64; 4]> {
    if samples.len() >= MAX_HISTORY {
        samples.drop_first().push(sample)
    } else {
        samples.push(sample)
    }
}

/// The moving average after one more raw score: `alpha * raw + (1 - alpha) *
/// previous`, rounded down to a whole millionth.
pub open spec fn ewma(previous: u64, raw: u64) -> int {
    (SMOOTHING_ALPHA * raw + (SCALE - SMOOTHING_ALPHA) * previous) / (SCALE as int)
}

/// Whether two consecutive readings of one dimension are further apart than
/// the spike threshold.
pub open spec fn is_spike(previous: u64, current: u64) -> bool {
    current - previous > SPIKE_THRESHOLD || previous - current > SPIKE_THRESHOLD
}

/// Spike flag per dimension of `current` against the sample before it; with
/// no sample before it nothing is flagged.
pub open spec fn spike_flags(previous: Option<[u64; 4]>, current: [u64; 4]) -> [bool; 4] {
    match previous {
        Some(p) => [
            is_spike(p[0], current[0]),
            is_spike(p[1], current[1]),
            is_spike(p[2], current[2]),
            is_spike(p[3], current[3]),
        ],
        None => [false, false, false, false],
    }
}

/// What a `MetricHistory` stands for.
pub struct HistoryModel {
    /// Recorded samples, oldest first.
    pub samples: Seq<[u64; 4]>,
    /// Smoothed score per dimension.
    pub smoothed: [u64; 4],
}

impl HistoryModel {
    /// The most recent sample.
    pub open spec fn latest(self) -> Option<[u64; 4]> {
        if self.samples.len() >= 1 {
            Some(self.samples[self.samples.len() - 1])
        } else {
            None
        }
    }

    /// The sample recorded just before the most recent one.
    pub open spec fn previous(self) -> Option<[u64; 4]> {
        if self.samples.len() >= 2 {
            Some(self.samples[self.samples.len() - 2])
        } else {
            None
        }
    }
}

/// One step of the moving average.
pub fn smooth(previous: u64, raw: u64) -> (smoothed: u64)
    ensures
        smoothed == ewma(previous, raw),
{
    let alpha: u128 = SMOOTHING_ALPHA as u128;
    let rest: u128 = (SCALE - SMOOTHING_ALPHA) as u128;
    assert(alpha * raw == 300_000 * raw);
    assert(rest * previous == 700_000 * previous);
    let weighted: u128 = alpha * raw as u128 + rest * previous as u128;
    let scale: u128 = SCALE as u128;
    assert(weighted / scale == weighted / 1_000_000);
    assert(weighted / 1_000_000 <= u64::MAX);
    (weighted / scale) as u64
}

/// Whether `current` is a spike after `previous`.
pub fn spike_between(previous: u64, current: u64) -> (spike: bool)
    ensures
        spike == is_spike(previous, current),
{
    if current >= previous {
        current - previous > SPIKE_THRESHOLD
    } else {
        previous - current > SPIKE_THRESHOLD
    }
}

/// The state that the monitoring loop owns: the window of the most recent
/// samples, never more than `MAX_HISTORY` of them, and the smoothed scores.
/// A sample holds cpu, ram, disk and network latency, in this order.
#[derive(Debug)]
pub struct MetricHistory {
    data: VecDeque<[u64; 4]>,
    smoothed_scores: [u64; 4],
}

impl View for MetricHistory {
    type V = HistoryModel;

    closed spec fn view(&self) -> HistoryModel {
        HistoryModel { samples: self.data@, smoothed: self.smoothed_scores }
    }
}

impl MetricHistory {
    #[verifier::type_invariant]
    spec fn within_capacity(self) -> bool {
        self.data@.len() <= MAX_HISTORY
    }

    /// An empty history with all smoothed scores at zero.
    pub fn new() -> (history: Self)
        ensures
            history@.samples == Seq::<[u64; 4]>::empty(),
            history@.smoothed == [0u64, 0u64, 0u64, 0u64],
    {
        MetricHistory { data: VecDeque::with_capacity(MAX_HISTORY), smoothed_scores: [0, 0, 0, 0] }
    }

    /// Number of samples in the window.
    pub fn len(&self) -> (n: usize)
        ensures
            n == self@.samples.len(),
            n <= MAX_HISTORY,
    {
        proof {
            use_type_invariant(self);
        }
        self.data.len()
    }

    /// The most recent sample, if any.
    pub fn latest(&self) -> (sample: Option<[u64; 4]>)
        ensures
            sample == self@.latest(),
    {
        let n = self.data.len();
        if n >= 1 {
            Some(self.data[n - 1])
        } else {
            None
        }
    }

    /// The sample before the most recent one, if there are two.
    pub fn previous(&self) -> (sample: Option<[u64; 4]>)
        ensures
            sample == self@.previous(),
    {
        let n = self.data.len();
        if n >= 2 {
            Some(self.data[n - 2])
        } else {
            None
        }
    }

    /// All recorded samples, oldest first.
    pub fn snapshot(&self) -> (samples: Vec<[u64; 4]>)
        ensures
            samples@ == self@.samples,
            samples@.len() <= MAX_HISTORY,
    {
        proof {
            use_type_invariant(self);
        }
        let n = self.data.len();
        let mut samples: Vec<[u64; 4]> = Vec::with_capacity(n);
        let mut i: usize = 0;
        while i < n
            invariant
                n == self.data@.len(),
                i <= n,
                samples@ == self.data@.subrange(0, i as int),
            decreases n - i,
        {
            samples.push(self.data[i]);
            i += 1;
        }
        samples
    }

    /// The smoothed score of each dimension.
    pub fn smoothed_scores(&self) -> (scores: [u64; 4])
        ensures
            scores == self@.smoothed,
    {
        self.smoothed_scores
    }

    /// Folds the newest raw scores into the smoothed ones.
    pub fn update_smoothed_scores(&mut self, latest_scores: [u64; 4])
        ensures
            final(self)@.samples == old(self)@.samples,
            forall|i: int|
                0 <= i < 4 ==> final(self)@.smoothed[i] == ewma(
                    old(self)@.smoothed[i],
                    latest_scores[i],
                ),
    {
        proof {
            use_type_invariant(&*self);
        }
        let before = self.smoothed_scores;
        self.smoothed_scores = [
            smooth(before[0], latest_scores[0]),
            smooth(before[1], latest_scores[1]),
            smooth(before[2], latest_scores[2]),
            smooth(before[3], latest_scores[3]),
        ];
    }

    /// Flags each dimension in which `current_data` jumps away from the
    /// sample before the most recent one.
    pub fn detect_spike(&self, current_data: [u64; 4]) -> (spikes: [bool; 4])
        ensures
            spikes == spike_flags(self@.previous(), current_data),
    {
        match self.previous() {
            Some(prev) => [
                spike_between(prev[0], current_data[0]),
                spike_between(prev[1], current_data[1]),
                spike_between(prev[2], current_data[2]),
                spike_between(prev[3], current_data[3]),
            ],
            None => [false, false, false, false],
        }
    }

    /// Records a sample as the most recent one. A full window drops its
    /// oldest sample to make room.
    pub fn add(&mut self, cpu: u64, ram: u64, disk: u64, latency: u64)
        ensures
            final(self)@.samples == pushed(old(self)@.samples, [cpu, ram, disk, latency]),
            final(self)@.samples.len() <= MAX_HISTORY,
            final(self)@.smoothed == old(self)@.smoothed,
    {
        proof {
            use_type_invariant(&*self);
        }
        let mut data: VecDeque<[u64; 4]> = VecDeque::new();
        std::mem::swap(&mut data, &mut self.data);
        if data.len() == MAX_HISTORY {
            data.pop_front();
        }
        data.push_back([cpu, ram, disk, latency]);
        self.data = data;
    }
}

/// The window after each of `incoming` has been recorded in turn.
pub open spec fn pushed_all(samples: Seq<[u64; 4]>, incoming: Seq<[u64; 4]>) -> Seq<[u64; 4]>
    decreases incoming.len(),
{
    if incoming.len() == 0 {
        samples
    } else {
        pushed(pushed_all(samples, incoming.drop_last()), incoming.last())
    }
}

/// The last `MAX_HISTORY` entries of `all`, in their order; all of them when
/// there are no more than that.
pub open spec fn newest(all: Seq<[u64; 4]>) -> Seq<[u64; 4]> {
    if all.len() > MAX_HISTORY {
        all.subrange(all.len() - MAX_HISTORY, all.len() as int)
    } else {
        all
    }
}

/// Recording any run of samples leaves exactly the newest `MAX_HISTORY` of
/// everything recorded, in the order of arrival; the window never grows
/// beyond `MAX_HISTORY`.
pub proof fn lemma_window_keeps_newest(samples: Seq<[u64; 4]>, incoming: Seq<[u64; 4]>)
    requires
        samples.len() <= MAX_HISTORY,
    ensures
        pushed_all(samples, incoming) == newest(samples + incoming),
        pushed_all(samples, incoming).len() <= MAX_HISTORY,
    decreases incoming.len(),
{
    if incoming.len() == 0 {
        assert(samples + incoming =~= samples);
    } else {
        let earlier = incoming.drop_last();
        lemma_window_keeps_newest(samples, earlier);
        let before = samples + earlier;
        assert(samples + incoming =~= before.push(incoming.last()));
        assert(pushed(newest(before), incoming.last()) =~= newest(before.push(incoming.last())));
    }
}

/// The first update of a score that starts at zero gives `alpha * raw`.
pub proof fn lemma_first_update(raw: u64)
    ensures
        ewma(0, raw) == (SMOOTHING_ALPHA * raw) / (SCALE as int),
        ewma(0, raw) == (3 * raw) / 10,
{
    assert(SMOOTHING_ALPHA * raw == 300_000 * raw);
    assert((SCALE - SMOOTHING_ALPHA) * 0 == 0);
}

/// An update never leaves the range between the previous smoothed score and
/// the raw score, and never moves away from the raw score.
pub proof fn lemma_update_stays_between(previous: u64, raw: u64)
    ensures
        previous <= raw ==> previous <= ewma(previous, raw) <= raw,
        raw <= previous ==> raw <= ewma(previous, raw) <= previous,
{
    assert(SMOOTHING_ALPHA * raw == 300_000 * raw);
    assert((SCALE - SMOOTHING_ALPHA) * previous == 700_000 * previous);
}

/// A smoothed score never leaves a range that holds it and every raw score
/// folded into it.
pub proof fn lemma_update_within_range(previous: u64, raw: u64, low: u64, high: u64)
    requires
        low <= previous <= high,
        low <= raw <= high,
    ensures
        low <= ewma(previous, raw) <= high,
{
    lemma_update_stays_between(previous, raw);
}

/// An update closes three tenths of the gap to the raw score, up to the
/// rounding: from below less than one millionth is lost, from above none.
/// So it moves strictly towards the raw score once they are more than three
/// millionths apart, and from above whenever they differ.
pub proof fn lemma_update_makes_progress(previous: u64, raw: u64)
    ensures
        previous <= raw ==> 10 * (raw - ewma(previous, raw)) < 7 * (raw - previous) + 10,
        raw <= previous ==> 10 * (ewma(previous, raw) - raw) <= 7 * (previous - raw),
        previous + 3 < raw ==> previous < ewma(previous, raw),
        raw < previous ==> ewma(previous, raw) < previous,
{
    assert(SMOOTHING_ALPHA * raw == 300_000 * raw);
    assert((SCALE - SMOOTHING_ALPHA) * previous == 700_000 * previous);
}

/// The smoothed score after `n` updates with one and the same raw score.
pub open spec fn smoothed_after(start: u64, raw: u64, n: nat) -> u64
    decreases n,
{
    if n == 0 {
        start
    } else {
        ewma(smoothed_after(start, raw, (n - 1) as nat), raw) as u64
    }
}

/// Updates with one and the same raw score approach it monotonically and
/// never pass it, from whichever side they start.
pub proof fn lemma_repeated_updates_approach(start: u64, raw: u64, n: nat)
    ensures
        start <= raw ==> start <= smoothed_after(start, raw, n) <= smoothed_after(
            start,
            raw,
            n + 1,
        ) <= raw,
        raw <= start ==> raw <= smoothed_after(start, raw, n + 1) <= smoothed_after(start, raw, n)
            <= start,
    decreases n,
{
    if n > 0 {
        lemma_repeated_updates_approach(start, raw, (n - 1) as nat);
    }
    lemma_update_stays_between(smoothed_after(start, raw, n), raw);
}

/// Two updates with the same raw score, starting from zero, approach it
/// monotonically: `0 <= first <= second <= raw`.
pub proof fn lemma_repeated_update_converges(raw: u64)
    ensures
        0 <= ewma(0, raw) <= ewma(ewma(0, raw) as u64, raw) <= raw,
{
    lemma_update_stays_between(0, raw);
    lemma_update_stays_between(ewma(0, raw) as u64, raw);
}

/// A difference of exactly the threshold is no spike; anything above it is.
pub proof fn lemma_spike_threshold_is_strict(previous: u64, current: u64)
    ensures
        current - previous == SPIKE_THRESHOLD ==> !is_spike(previous, current),
        previous - current == SPIKE_THRESHOLD ==> !is_spike(previous, current),
        current - previous > SPIKE_THRESHOLD ==> is_spike(previous, current),
        previous - current > SPIKE_THRESHOLD ==> is_spike(previous, current),
        is_spike(previous, current) == is_spike(current, previous),
{
}

} // verus!
