use vstd::prelude::*;

use crate::result::ScanResult;

verus! {

/// Totals for one walk-mode run: how many jobs completed and how many of them
/// were positive detections. Each completed job is recorded exactly once,
/// whatever its outcome; both totals only grow.
pub struct RunCounters {
    pub scanned: u64,
    pub detected: u64,
}

impl RunCounters {
    /// Detections are a subset of completed scans.
    pub open spec fn wf(self) -> bool {
        self.detected <= self.scanned
    }

    /// The totals after one more completed job with result `res`.
    pub open spec fn recorded(self, res: ScanResult) -> RunCounters {
        RunCounters {
            scanned: (self.scanned + 1) as u64,
            detected: if res.is_positive() {
                (self.detected + 1) as u64
            } else {
                self.detected
            },
        }
    }

    pub fn new() -> (c: RunCounters)
        ensures
            c.scanned == 0,
            c.detected == 0,
            c.wf(),
    {
        RunCounters { scanned: 0, detected: 0 }
    }

    /// Record one completed job: `scanned` rises by exactly one, and
    /// `detected` rises by one exactly when the result is a positive
    /// detection (an error never counts as one).
    pub fn record(&mut self, res: &ScanResult)
        requires
            old(self).wf(),
            old(self).scanned < u64::MAX,
        ensures
            *final(self) == old(self).recorded(*res),
            final(self).scanned == old(self).scanned + 1,
            final(self).detected == old(self).detected + (if res.is_positive() {
                1int
            } else {
                0int
            }),
            final(self).wf(),
    {
        self.scanned = self.scanned + 1;
        if res.error.is_none() && res.detected {
            self.detected = self.detected + 1;
        }
    }
}

/// The totals after recording every result in `results`, in order, starting
/// from `c`.
pub open spec fn counters_after(c: RunCounters, results: Seq<ScanResult>) -> RunCounters
    decreases results.len(),
{
    if results.len() == 0 {
        c
    } else {
        counters_after(c, results.drop_last()).recorded(results.last())
    }
}

/// How many results in `results` are positive detections.
pub open spec fn count_positives(results: Seq<ScanResult>) -> nat
    decreases results.len(),
{
    if results.len() == 0 {
        0
    } else {
        count_positives(results.drop_last()) + (if results.last().is_positive() {
            1nat
        } else {
            0nat
        })
    }
}

/// Counting law: once every submitted job has completed, `scanned` equals the
/// number of jobs, each recorded exactly once, whatever the jobs' outcomes.
pub proof fn lemma_scanned_counts_all_jobs(c: RunCounters, results: Seq<ScanResult>)
    requires
        c.wf(),
        c.scanned + results.len() <= u64::MAX,
    ensures
        counters_after(c, results).scanned == c.scanned + results.len(),
        counters_after(c, results).wf(),
    decreases results.len(),
{
    if results.len() > 0 {
        lemma_scanned_counts_all_jobs(c, results.drop_last());
    }
}

/// Detection law: `detected` never exceeds `scanned`, and it counts exactly
/// the jobs whose result had the detection flag set and no error.
pub proof fn lemma_detected_counts_positives(c: RunCounters, results: Seq<ScanResult>)
    requires
        c.wf(),
        c.scanned + results.len() <= u64::MAX,
    ensures
        counters_after(c, results).detected == c.detected + count_positives(results),
        counters_after(c, results).detected <= counters_after(c, results).scanned,
    decreases results.len(),
{
    if results.len() > 0 {
        lemma_scanned_counts_all_jobs(c, results.drop_last());
        lemma_detected_counts_positives(c, results.drop_last());
    }
}

} // verus!
