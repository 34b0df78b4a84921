//! Turning raw counters of the host into the readings of a sample.

use crate::metrics::SCALE;
use vstd::prelude::*;

verus! {

/// The latency reading that stands for a host that could not be reached.
pub const UNREACHABLE: u64 = 0xffff_ffff_ffff_ffff;

/// Longest time, in seconds, that a latency probe may take.
pub const PROBE_TIMEOUT_SECS: u64 = 5;

/// Size and free space of one disk, in bytes.
#[derive(Clone, Copy, Debug, PartialEq, Eq, Structural)]
pub struct DiskSpace {
    pub total: u64,
    pub available: u64,
}

/// `part` of `whole` as a percentage in millionths, rounded down: 0 of an
/// empty whole, and 100 percent where the part is no smaller than the whole.
pub open spec fn percent_of(part: u64, whole: u64) -> int {
    if whole == 0 {
        0
    } else if part >= whole {
        100_000_000
    } else {
        (part * 100_000_000) / (whole as int)
    }
}

/// The used share of one disk as a percentage. A disk that reports more free
/// space than it has counts as unused.
pub open spec fn disk_percent(disk: DiskSpace) -> int {
    if disk.available >= disk.total {
        0
    } else {
        percent_of((disk.total - disk.available) as u64, disk.total)
    }
}

/// The sum of the used percentages of `disks`.
pub open spec fn percent_sum(disks: Seq<DiskSpace>) -> int
    decreases disks.len(),
{
    if disks.len() == 0 {
        0
    } else {
        percent_sum(disks.drop_last()) + disk_percent(disks.last())
    }
}

/// The disk reading: the mean of the used percentages of all disks, rounded
/// down; 0 without disks.
pub open spec fn mean_disk_percent(disks: Seq<DiskSpace>) -> int {
    if disks.len() == 0 {
        0
    } else {
        percent_sum(disks) / (disks.len() as int)
    }
}

/// The latency reading for a probe that took `micros` microseconds, in
/// milliseconds; capped just below the reading that means unreachable.
pub open spec fn latency_of(micros: u64) -> int {
    if micros * 1000 < UNREACHABLE {
        micros * 1000
    } else {
        UNREACHABLE - 1
    }
}

/// Every used percentage lies between 0 and 100.
pub proof fn lemma_disk_percent_bounds(disk: DiskSpace)
    ensures
        0 <= disk_percent(disk) <= 100 * SCALE,
{
    if disk.available < disk.total {
        let used = (disk.total - disk.available) as int;
        let total = disk.total as int;
        assert(used * 100_000_000 <= total * 100_000_000);
        assert((used * 100_000_000) / total <= 100_000_000) by (nonlinear_arith)
            requires
                0 <= used * 100_000_000 <= total * 100_000_000,
                total > 0,
        ;
        assert(0 <= (used * 100_000_000) / total) by (nonlinear_arith)
            requires
                0 <= used * 100_000_000,
                total > 0,
        ;
    }
}

/// The sum, and so the mean, of the used percentages is bounded by what each
/// disk can add.
pub proof fn lemma_percent_sum_bounds(disks: Seq<DiskSpace>)
    ensures
        0 <= percent_sum(disks) <= disks.len() * 100_000_000,
        0 <= mean_disk_percent(disks) <= 100 * SCALE,
    decreases disks.len(),
{
    if disks.len() > 0 {
        lemma_percent_sum_bounds(disks.drop_last());
        lemma_disk_percent_bounds(disks.last());
        let n = disks.len() as int;
        let sum = percent_sum(disks);
        assert(sum / n <= 100_000_000) by (nonlinear_arith)
            requires
                0 <= sum <= n * 100_000_000,
                n > 0,
        ;
        assert(0 <= sum / n) by (nonlinear_arith)
            requires
                0 <= sum,
                n > 0,
        ;
    }
}

/// Memory in use as a percentage of all memory.
pub fn memory_usage(used: u64, total: u64) -> (reading: u64)
    ensures
        reading == percent_of(used, total),
        reading <= 100 * SCALE,
{
    percent(used, total)
}

fn percent(part: u64, whole: u64) -> (reading: u64)
    ensures
        reading == percent_of(part, whole),
        reading <= 100 * SCALE,
{
    if whole == 0 {
        0
    } else if part >= whole {
        100_000_000
    } else {
        let scaled: u128 = part as u128 * 100_000_000u128;
        let reading: u128 = scaled / whole as u128;
        assert(reading <= 100_000_000) by (nonlinear_arith)
            requires
                reading == scaled / (whole as u128),
                0 <= scaled <= whole * 100_000_000,
                whole > 0,
        ;
        reading as u64
    }
}

/// The used share of one disk as a percentage.
pub fn disk_usage_of(disk: &DiskSpace) -> (reading: u64)
    ensures
        reading == disk_percent(*disk),
        reading <= 100 * SCALE,
{
    if disk.available >= disk.total {
        0
    } else {
        percent(disk.total - disk.available, disk.total)
    }
}

/// The disk reading of a sample: the mean used percentage over `disks`.
pub fn disk_usage(disks: &Vec<DiskSpace>) -> (reading: u64)
    ensures
        reading == mean_disk_percent(disks@),
        reading <= 100 * SCALE,
{
    let n = disks.len();
    if n == 0 {
        return 0;
    }
    let mut sum: u128 = 0;
    let mut i: usize = 0;
    while i < n
        invariant
            n == disks@.len(),
            i <= n,
            sum == percent_sum(disks@.subrange(0, i as int)),
            sum <= i * 100_000_000,
        decreases n - i,
    {
        let one = disk_usage_of(&disks[i]);
        proof {
            let upto = disks@.subrange(0, i + 1);
            assert(upto.drop_last() =~= disks@.subrange(0, i as int));
            assert(upto.last() == disks@[i as int]);
        }
        sum = sum + one as u128;
        i += 1;
    }
    proof {
        assert(disks@.subrange(0, n as int) =~= disks@);
        lemma_percent_sum_bounds(disks@);
    }
    (sum / n as u128) as u64
}

/// The latency reading of a sample: the duration of the probe, or the
/// reading that means unreachable when the probe failed.
pub fn latency_reading(probe_micros: Option<u64>) -> (reading: u64)
    ensures
        probe_micros matches Some(micros) ==> reading == latency_of(micros),
        probe_micros is None ==> reading == UNREACHABLE,
{
    match probe_micros {
        Some(micros) => {
            if micros <= UNREACHABLE / 1000 {
                micros * 1000
            } else {
                UNREACHABLE - 1
            }
        },
        None => UNREACHABLE,
    }
}

} // verus!
