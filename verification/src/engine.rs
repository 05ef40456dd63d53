//! Incremental CPU usage: turning two monotonic counter samples into a
//! percentage breakdown, and the engine that keeps the previous sample.

use crate::stats::{sat_sub64, zero_breakdown, CpuStats, CpuTimes, CpuUsageBreakdown};
use vstd::prelude::*;

verus! {

/// The share `diff / total` in hundredths of a percentage point, clamped to
/// 0 ..= 10000 (counters that moved backwards or jumped can exceed the whole).
pub open spec fn share_centipercent(diff: u64, total: u64) -> u32
    recommends
        total > 0,
{
    let v = diff * 10000 / (total as int);
    if v > 10000 {
        10000u32
    } else {
        v as u32
    }
}

/// The breakdown derived from two samples: each bucket's growth as a share of
/// the growth of the total. A total that did not grow (including a decrease,
/// as after a counter wrap) yields the all-zero breakdown.
pub open spec fn spec_breakdown(prev: CpuTimes, cur: CpuTimes) -> CpuUsageBreakdown {
    let total_diff = sat_sub64(cur.total, prev.total);
    if total_diff == 0 {
        zero_breakdown()
    } else {
        CpuUsageBreakdown {
            user_centipercent: share_centipercent(sat_sub64(cur.user, prev.user), total_diff),
            nice_centipercent: share_centipercent(sat_sub64(cur.nice, prev.nice), total_diff),
            system_centipercent: share_centipercent(sat_sub64(cur.system, prev.system), total_diff),
            total_centipercent: share_centipercent(
                sat_sub64(total_diff, sat_sub64(cur.idle, prev.idle)),
                total_diff,
            ),
        }
    }
}

/// Between two samples with equal totals no time elapsed, so the breakdown
/// is all-zero: the division by the elapsed total is never reached.
pub proof fn lemma_equal_totals_zero_breakdown(prev: CpuTimes, cur: CpuTimes)
    requires
        cur.total == prev.total,
    ensures
        spec_breakdown(prev, cur) == zero_breakdown(),
{
}

/// A derived breakdown always lies within 0% ..= 100% per bucket.
pub proof fn lemma_breakdown_wf(prev: CpuTimes, cur: CpuTimes)
    ensures
        spec_breakdown(prev, cur).wf(),
{
}

/// Runtime counterpart of [`share_centipercent`].
fn share(diff: u64, total: u64) -> (r: u32)
    requires
        total > 0,
    ensures
        r == share_centipercent(diff, total),
{
    let v: u128 = (diff as u128) * 10000u128 / (total as u128);
    if v > 10000 {
        10000
    } else {
        v as u32
    }
}

/// Compute the usage breakdown between two counter samples.
pub fn calculate_cpu_usage_breakdown(prev: &CpuTimes, current: &CpuTimes) -> (r: CpuUsageBreakdown)
    ensures
        r == spec_breakdown(*prev, *current),
        r.wf(),
{
    let total_diff = if current.total >= prev.total {
        current.total - prev.total
    } else {
        0
    };
    if total_diff == 0 {
        return CpuUsageBreakdown::default();
    }
    let user_diff = if current.user >= prev.user {
        current.user - prev.user
    } else {
        0
    };
    let nice_diff = if current.nice >= prev.nice {
        current.nice - prev.nice
    } else {
        0
    };
    let system_diff = if current.system >= prev.system {
        current.system - prev.system
    } else {
        0
    };
    let idle_diff = if current.idle >= prev.idle {
        current.idle - prev.idle
    } else {
        0
    };
    let busy_diff = if total_diff >= idle_diff {
        total_diff - idle_diff
    } else {
        0
    };
    CpuUsageBreakdown {
        user_centipercent: share(user_diff, total_diff),
        nice_centipercent: share(nice_diff, total_diff),
        system_centipercent: share(system_diff, total_diff),
        total_centipercent: share(busy_diff, total_diff),
    }
}

/// Keeps the previous counter sample (aggregate and per core) and converts
/// each new sample into a usage breakdown.
///
/// The engine has two states: unprimed (no previous sample: the first
/// computation reports zero usage and merely seeds the state) and primed
/// (a previous sample is held and differences can be formed).
pub struct DeltaCpuEngine {
    prev_overall: Option<CpuTimes>,
    prev_per_core: Vec<CpuTimes>,
}

impl DeltaCpuEngine {
    /// The previous aggregate sample, if the engine is primed.
    pub closed spec fn spec_prev_overall(self) -> Option<CpuTimes> {
        self.prev_overall
    }

    /// The previous per-core samples.
    pub closed spec fn spec_prev_cores(self) -> Seq<CpuTimes> {
        self.prev_per_core@
    }

    /// Has a first sample been stored?
    pub open spec fn is_primed(self) -> bool {
        self.spec_prev_overall() is Some
    }

    /// A fresh, unprimed engine.
    pub fn new() -> (e: Self)
        ensures
            !e.is_primed(),
            e.spec_prev_cores() == Seq::<CpuTimes>::empty(),
    {
        DeltaCpuEngine { prev_overall: None, prev_per_core: Vec::new() }
    }

    /// Convert the current sample into a usage breakdown and store it as the
    /// new previous sample.
    ///
    /// On the very first call the result is all-zero (no usage can be derived
    /// without a delta). Afterwards each core is matched to the previous
    /// cycle's core of the same index; cores beyond the previously seen count
    /// report zero for this cycle.
    pub fn compute(&mut self, current_overall: CpuTimes, current_per_core: Vec<CpuTimes>) -> (r:
        CpuStats)
        ensures
            final(self).spec_prev_overall() == Some(current_overall),
            final(self).spec_prev_cores() == current_per_core@,
            r.core_count == current_per_core@.len(),
            r.per_core@.len() == current_per_core@.len(),
            r.wf(),
            !old(self).is_primed() ==> r.overall == zero_breakdown(),
            !old(self).is_primed() ==> (forall|i: int|
                0 <= i < r.per_core@.len() ==> r.per_core@[i] == zero_breakdown()),
            old(self).is_primed() ==> r.overall == spec_breakdown(
                old(self).spec_prev_overall()->0,
                current_overall,
            ),
            old(self).is_primed() ==> (forall|i: int|
                0 <= i < r.per_core@.len() ==> r.per_core@[i] == (if i < old(
                    self,
                ).spec_prev_cores().len() {
                    spec_breakdown(old(self).spec_prev_cores()[i], current_per_core@[i])
                } else {
                    zero_breakdown()
                })),
    {
        let primed = self.prev_overall.is_some();
        let overall = match self.prev_overall {
            Some(p) => calculate_cpu_usage_breakdown(&p, &current_overall),
            None => CpuUsageBreakdown::default(),
        };
        let n = current_per_core.len();
        let mut per_core: Vec<CpuUsageBreakdown> = Vec::new();
        let mut i: usize = 0;
        while i < n
            invariant
                0 <= i <= n,
                n == current_per_core@.len(),
                *self == *old(self),
                primed == old(self).is_primed(),
                per_core@.len() == i,
                forall|j: int|
                    0 <= j < i ==> #[trigger] per_core@[j] == (if old(self).is_primed() && j < old(
                        self,
                    ).spec_prev_cores().len() {
                        spec_breakdown(old(self).spec_prev_cores()[j], current_per_core@[j])
                    } else {
                        zero_breakdown()
                    }),
                forall|j: int| 0 <= j < i ==> #[trigger] per_core@[j].wf(),
            decreases n - i,
        {
            let b = if primed && i < self.prev_per_core.len() {
                calculate_cpu_usage_breakdown(&self.prev_per_core[i], &current_per_core[i])
            } else {
                CpuUsageBreakdown::default()
            };
            per_core.push(b);
            i = i + 1;
        }
        self.prev_overall = Some(current_overall);
        self.prev_per_core = current_per_core;
        CpuStats { overall, per_core, core_count: n }
    }
}

} // verus!
