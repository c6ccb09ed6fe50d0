//! Progress and statistics accounting for one rebuild job.

use vstd::prelude::*;
use crate::range::Range;
use crate::rebuild_error::BackendError;
use crate::rebuild_error::RebuildError;

verus! {

/// Rebuild statistics.
#[derive(Clone, Copy, Debug, PartialEq, Eq, Structural)]
pub struct RebuildStats {
    /// Total number of blocks to recover.
    pub blocks_total: u64,
    /// Number of blocks recovered.
    pub blocks_recovered: u64,
    /// Rebuild progress in %.
    pub progress: u64,
    /// Granularity of each recovery copy in blocks.
    pub segment_size_blks: u64,
    /// Size in bytes of each block.
    pub block_size: u64,
    /// Total number of copy tasks dispatched so far.
    pub tasks_total: u64,
    /// Number of currently active tasks.
    pub tasks_active: u64,
}

impl Default for RebuildStats {
    /// All counters start at zero.
    fn default() -> (r: RebuildStats)
        ensures
            r == (RebuildStats {
                blocks_total: 0,
                blocks_recovered: 0,
                progress: 0,
                segment_size_blks: 0,
                block_size: 0,
                tasks_total: 0,
                tasks_active: 0,
            }),
    {
        RebuildStats {
            blocks_total: 0,
            blocks_recovered: 0,
            progress: 0,
            segment_size_blks: 0,
            block_size: 0,
            tasks_total: 0,
            tasks_active: 0,
        }
    }
}

/// Progress accumulator, mutated exclusively by the orchestrator.
#[derive(Clone, Copy, Debug, PartialEq, Eq, Structural)]
pub struct RebuildRecord {
    /// Statistics snapshot source.
    pub stats: RebuildStats,
    /// The first failure that wounded the job, if any: a
    /// `SegmentCopyFailed` with the failing range and cause, or
    /// `BackendUnavailable`.
    pub last_failure: Option<RebuildError>,
}

impl RebuildRecord {
    /// Internal consistency of the counters.
    pub open spec fn wf(self) -> bool {
        &&& self.stats.blocks_total > 0
        &&& self.stats.blocks_recovered <= self.stats.blocks_total
        &&& self.stats.progress == self.stats.blocks_recovered * 100 / (
        self.stats.blocks_total as int)
        &&& self.stats.tasks_active <= self.stats.tasks_total
    }

    /// A fresh record: nothing recovered, no tasks, sizes fixed for
    /// the life of the job.
    pub fn new(blocks_total: u64, segment_size_blks: u64, block_size: u64) -> (r: RebuildRecord)
        requires
            blocks_total > 0,
        ensures
            r.wf(),
            r.stats.blocks_total == blocks_total,
            r.stats.blocks_recovered == 0,
            r.stats.progress == 0,
            r.stats.segment_size_blks == segment_size_blks,
            r.stats.block_size == block_size,
            r.stats.tasks_total == 0,
            r.stats.tasks_active == 0,
            r.last_failure is None,
    {
        RebuildRecord {
            stats: RebuildStats {
                blocks_total,
                blocks_recovered: 0,
                progress: 0,
                segment_size_blks,
                block_size,
                tasks_total: 0,
                tasks_active: 0,
            },
            last_failure: None,
        }
    }

    /// Account one dispatched task.
    pub fn on_dispatch(&mut self)
        requires
            old(self).wf(),
            old(self).stats.tasks_total < u64::MAX,
        ensures
            final(self).wf(),
            final(self).stats == (RebuildStats {
                tasks_total: (old(self).stats.tasks_total + 1) as u64,
                tasks_active: (old(self).stats.tasks_active + 1) as u64,
                ..old(self).stats
            }),
            final(self).last_failure == old(self).last_failure,
    {
        self.stats.tasks_total = self.stats.tasks_total + 1;
        self.stats.tasks_active = self.stats.tasks_active + 1;
    }

    /// Account one successfully copied segment of `blocks` blocks:
    /// `blocks_recovered` grows by the segment's block count and the
    /// progress percentage is recomputed.
    pub fn on_success(&mut self, blocks: u64)
        requires
            old(self).wf(),
            old(self).stats.blocks_recovered + blocks <= old(self).stats.blocks_total,
            old(self).stats.tasks_active > 0,
        ensures
            final(self).wf(),
            final(self).stats == (RebuildStats {
                blocks_recovered: (old(self).stats.blocks_recovered + blocks) as u64,
                progress: ((old(self).stats.blocks_recovered + blocks) * 100 / old(
                    self,
                ).stats.blocks_total as int) as u64,
                tasks_active: (old(self).stats.tasks_active - 1) as u64,
                ..old(self).stats
            }),
            final(self).last_failure == old(self).last_failure,
            final(self).stats.blocks_recovered >= old(self).stats.blocks_recovered,
            final(self).stats.progress >= old(self).stats.progress,
    {
        let recovered = self.stats.blocks_recovered + blocks;
        let total = self.stats.blocks_total;
        let progress: u64 = ((recovered as u128) * 100 / (total as u128)) as u64;
        proof {
            assert(recovered * 100 <= total * 100) by (nonlinear_arith)
                requires
                    0 <= recovered <= total,
            ;
            assert(recovered * 100 / total as int <= 100) by (nonlinear_arith)
                requires
                    0 < total,
                    recovered * 100 <= total * 100,
            ;
            let prev = old(self).stats.blocks_recovered;
            assert(prev * 100 / total as int <= recovered * 100 / total as int)
                by (nonlinear_arith)
                requires
                    0 < total,
                    0 <= prev <= recovered,
            ;
        }
        self.stats.blocks_recovered = recovered;
        self.stats.progress = progress;
        self.stats.tasks_active = self.stats.tasks_active - 1;
    }

    /// Record a failure without touching the counters; the first
    /// failure wins.
    pub fn note_failure(&mut self, error: RebuildError)
        ensures
            final(self).stats == old(self).stats,
            final(self).last_failure == (if old(self).last_failure is Some {
                old(self).last_failure
            } else {
                Some(error)
            }),
            final(self).last_failure is Some,
    {
        if self.last_failure.is_none() {
            self.last_failure = Some(error);
        }
    }

    /// Account one failed segment copy: the failing range and cause
    /// are recorded (first failure wins), nothing is recovered.
    pub fn on_task_failed(&mut self, range: Range, cause: BackendError)
        requires
            old(self).wf(),
            old(self).stats.tasks_active > 0,
        ensures
            final(self).wf(),
            final(self).stats == (RebuildStats {
                tasks_active: (old(self).stats.tasks_active - 1) as u64,
                ..old(self).stats
            }),
            final(self).last_failure == (if old(self).last_failure is Some {
                old(self).last_failure
            } else {
                Some(RebuildError::SegmentCopyFailed { range, cause })
            }),
            final(self).last_failure is Some,
    {
        self.stats.tasks_active = self.stats.tasks_active - 1;
        self.note_failure(RebuildError::SegmentCopyFailed { range, cause });
    }

    /// Drop the accounting for `n` tasks the backend can no longer
    /// report and record it as a backend failure; used when the
    /// backend turns out inconsistent with the pool.
    pub fn on_backend_lost(&mut self, n: u64)
        requires
            old(self).wf(),
            n <= old(self).stats.tasks_active,
        ensures
            final(self).wf(),
            final(self).stats == (RebuildStats {
                tasks_active: (old(self).stats.tasks_active - n) as u64,
                ..old(self).stats
            }),
            final(self).last_failure == (if old(self).last_failure is Some {
                old(self).last_failure
            } else {
                Some(RebuildError::BackendUnavailable)
            }),
            final(self).last_failure is Some,
    {
        self.stats.tasks_active = self.stats.tasks_active - n;
        self.note_failure(RebuildError::BackendUnavailable);
    }

    /// Consistent snapshot of the statistics.
    pub fn snapshot(&self) -> (r: RebuildStats)
        ensures
            r == self.stats,
    {
        self.stats
    }
}

} // verus!
