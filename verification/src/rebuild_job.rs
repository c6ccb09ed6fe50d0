//! The rebuild job: the orchestrator composing descriptor, state
//! machine, record, task pool and backend.

use vstd::prelude::*;
use crate::range::Range;
use crate::range::Within;
use crate::rebuild_backend::RebuildBackend;
use crate::rebuild_descriptor::RebuildDescriptor;
use crate::rebuild_descriptor::SEGMENT_SIZE;
use crate::rebuild_error::RebuildError;
use crate::rebuild_record::RebuildRecord;
use crate::rebuild_record::RebuildStats;
use crate::rebuild_state::spec_is_terminal;
use crate::rebuild_state::RebuildOperation;
use crate::rebuild_state::RebuildState;
use crate::rebuild_state::RebuildStates;
use crate::rebuild_task::lemma_sum_blocks_element_bound;
use crate::rebuild_task::lemma_sum_blocks_push;
use crate::rebuild_task::lemma_sum_blocks_remove;
use crate::rebuild_task::sum_blocks;
use crate::rebuild_task::RebuildTask;
use crate::rebuild_task::RebuildTaskPool;
use crate::rebuild_task::SEGMENT_TASKS;

verus! {

/// One rebuild of one target replica from one healthy source.
///
/// The job owns the descriptor, the state machine, the record and the
/// task pool for its lifetime, and drives the injected backend. All
/// mutation goes through the orchestrator methods below; `stats` reads
/// a consistent snapshot at any time.
pub struct RebuildJob<B: RebuildBackend> {
    backend: B,
    descriptor: RebuildDescriptor,
    states: RebuildStates,
    record: RebuildRecord,
    pool: RebuildTaskPool,
    next_offset: u64,
}

impl<B: RebuildBackend> RebuildJob<B> {
    /// Current lifecycle state.
    pub closed spec fn state_spec(self) -> RebuildState {
        self.states.current
    }

    /// Current statistics.
    pub closed spec fn stats_spec(self) -> RebuildStats {
        self.record.stats
    }

    /// The failure that wounded the job, if any.
    pub closed spec fn last_failure_spec(self) -> Option<RebuildError> {
        self.record.last_failure
    }

    /// The job's immutable configuration.
    pub closed spec fn descriptor_spec(self) -> RebuildDescriptor {
        self.descriptor
    }

    /// First block offset not yet dispatched to the backend.
    pub closed spec fn next_offset_spec(self) -> u64 {
        self.next_offset
    }

    /// Segments currently being copied by the backend.
    pub closed spec fn in_flight_spec(self) -> Seq<Range> {
        self.pool.in_flight_segments()
    }

    /// The job invariant, established by construction and preserved by
    /// every operation. It carries the concurrency bound, the drain
    /// guarantee outside `Running`, and the accounting that ties
    /// `blocks_recovered`, the in-flight segments and the dispatch
    /// cursor together.
    pub closed spec fn inv(self) -> bool {
        let d = self.descriptor;
        let segs = self.pool.in_flight_segments();
        &&& d.wf()
        &&& self.pool.wf()
        &&& d.range.start <= self.next_offset <= d.range.end
        &&& self.record.wf()
        &&& self.record.stats.blocks_total == d.total_blocks()
        &&& self.record.stats.segment_size_blks == d.segment_size_blks
        &&& self.record.stats.block_size == d.block_size
        &&& self.record.stats.tasks_active == segs.len()
        &&& self.record.stats.tasks_total <= self.next_offset - d.range.start
        &&& self.record.stats.blocks_recovered + sum_blocks(segs) <= self.next_offset
            - d.range.start
        &&& (self.record.last_failure is None ==> self.record.stats.blocks_recovered
            + sum_blocks(segs) == self.next_offset - d.range.start)
        &&& (forall|i: int| 0 <= i < segs.len() ==> (#[trigger] segs[i]).wf())
        &&& (forall|i: int| 0 <= i < segs.len() ==> (#[trigger] segs[i]).spec_within(d.range))
        &&& (forall|i: int| 0 <= i < segs.len() ==> (#[trigger] segs[i]).end <= self.next_offset)
        &&& (forall|i: int, j: int|
            0 <= i < j < segs.len() ==> (#[trigger] segs[i]).end <= (#[trigger] segs[j]).start)
        &&& (self.states.current == RebuildState::Init ==> self.next_offset == d.range.start
            && self.record.stats.tasks_total == 0)
        &&& (self.states.current != RebuildState::Running ==> segs.len() == 0)
        &&& (self.states.current == RebuildState::Completed ==> self.next_offset == d.range.end)
        &&& (match self.states.current {
            RebuildState::Failed => self.record.last_failure is Some,
            RebuildState::Stopped => true,
            RebuildState::Running => true,
            _ => self.record.last_failure is None,
        })
    }

    /// Build a job in `Init` around a validated descriptor and the
    /// injected backend.
    pub fn new(backend: B, descriptor: RebuildDescriptor) -> (r: RebuildJob<B>)
        requires
            descriptor.wf(),
        ensures
            r.inv(),
            r.state_spec() == RebuildState::Init,
            r.descriptor_spec() == descriptor,
            r.stats_spec().blocks_total == descriptor.total_blocks(),
            r.stats_spec().blocks_recovered == 0,
            r.stats_spec().progress == 0,
            r.stats_spec().tasks_total == 0,
            r.stats_spec().tasks_active == 0,
            r.last_failure_spec() is None,
            r.in_flight_spec().len() == 0,
    {
        let total = descriptor.range.end - descriptor.range.start;
        let record = RebuildRecord::new(total, descriptor.segment_size_blks, descriptor.block_size);
        let pool = RebuildTaskPool::new();
        let next_offset = descriptor.range.start;
        let r = RebuildJob { backend, descriptor, states: RebuildStates::new(), record, pool,
            next_offset };
        proof {
            assert(sum_blocks(r.pool.in_flight_segments()) == 0);
        }
        r
    }

    /// Create a job for rebuilding `range` of the target replica at
    /// `dst_uri` from the source replica at `src_uri`, with the
    /// default segment granularity. Fails with `RangeOutOfBounds`,
    /// before any state is created, exactly when the request is
    /// malformed: an empty or reversed range, or a degenerate block
    /// size.
    pub fn create_job(
        backend: B,
        src_uri: String,
        dst_uri: String,
        range: Range,
        block_size: u64,
    ) -> (r: Result<RebuildJob<B>, RebuildError>)
        ensures
            match r {
                Ok(j) => {
                    &&& range.wf()
                    &&& block_size > 0
                    &&& SEGMENT_SIZE / block_size > 0
                    &&& j.inv()
                    &&& j.state_spec() == RebuildState::Init
                    &&& j.descriptor_spec().range == range
                    &&& j.descriptor_spec().block_size == block_size
                    &&& j.descriptor_spec().src_uri@ == src_uri@
                    &&& j.descriptor_spec().dst_uri@ == dst_uri@
                    &&& j.stats_spec().blocks_total == range.spec_len()
                    &&& j.stats_spec().blocks_recovered == 0
                    &&& j.last_failure_spec() is None
                },
                Err(e) => e == RebuildError::RangeOutOfBounds && (!range.wf() || block_size == 0
                    || SEGMENT_SIZE / block_size == 0),
            },
    {
        let descriptor = match RebuildDescriptor::new(src_uri, dst_uri, range, block_size) {
            Ok(d) => d,
            Err(e) => {
                return Err(e);
            },
        };
        Ok(Self::new(backend, descriptor))
    }

    /// Current lifecycle state.
    pub fn state(&self) -> (r: RebuildState)
        ensures
            r == self.state_spec(),
    {
        self.states.current
    }

    /// Non-blocking snapshot of the statistics, callable in any state.
    pub fn stats(&self) -> (r: RebuildStats)
        ensures
            r == self.stats_spec(),
    {
        self.record.snapshot()
    }

    /// The failure that wounded the job, if any; carries the failing
    /// range and cause for a failed segment copy.
    pub fn last_failure(&self) -> (r: Option<RebuildError>)
        ensures
            r == self.last_failure_spec(),
    {
        self.record.last_failure
    }

    /// Dispatch the next undispatched segment to the backend. On
    /// success the cursor advances past the segment and the pool and
    /// record account one more in-flight task; on a backend refusal
    /// nothing changes and the segment and cause are handed back.
    fn dispatch_one(&mut self) -> (r: Result<(), (Range, crate::rebuild_error::BackendError)>)
        requires
            old(self).inv(),
            old(self).states.current == RebuildState::Running,
            old(self).pool.in_flight_segments().len() < SEGMENT_TASKS,
            old(self).next_offset < old(self).descriptor.range.end,
        ensures
            final(self).inv(),
            final(self).states == old(self).states,
            final(self).descriptor == old(self).descriptor,
            final(self).record.stats.blocks_recovered == old(self).record.stats.blocks_recovered,
            final(self).record.stats.progress == old(self).record.stats.progress,
            final(self).record.last_failure == old(self).record.last_failure,
            match r {
                Ok(()) => final(self).next_offset > old(self).next_offset && final(self).pool.in_flight_segments().len() == old(self).pool.in_flight_segments().len() + 1,
                Err(_) => final(self).next_offset == old(self).next_offset && final(self).pool.in_flight_segments() == old(self).pool.in_flight_segments() && final(self).record == old(self).record,
            },
    {
        let remaining = self.descriptor.range.end - self.next_offset;
        let blocks = if remaining <= self.descriptor.segment_size_blks {
            remaining
        } else {
            self.descriptor.segment_size_blks
        };
        let seg = Range { start: self.next_offset, end: self.next_offset + blocks };
        match self.backend.copy_segment(seg, seg) {
            Ok(()) => {
                let ghost prev = self.pool.in_flight_segments();
                match self.pool.dispatch(RebuildTask { segment: seg }) {
                    Ok(()) => {},
                    Err(_) => {
                        proof {
                            assert(false);
                        }
                    },
                }
                self.record.on_dispatch();
                self.next_offset = seg.end;
                proof {
                    lemma_sum_blocks_push(prev, seg);
                    let segs = self.pool.in_flight_segments();
                    assert(forall|i: int| 0 <= i < prev.len() ==> segs[i] == prev[i]);
                    assert(segs[prev.len() as int] == seg);
                }
                Ok(())
            },
            Err(e) => Err((seg, e)),
        }
    }

    /// Await one completion from the backend and retire its task:
    /// a success is credited to the record, a failure is recorded as
    /// fatal, and a completion the pool does not know (or a backend
    /// that reports nothing while tasks are outstanding) fails the job
    /// as `BackendUnavailable`, abandoning the stale accounting.
    fn process_completion(&mut self)
        requires
            old(self).inv(),
            old(self).states.current == RebuildState::Running,
            old(self).pool.in_flight_segments().len() > 0,
        ensures
            final(self).inv(),
            final(self).states == old(self).states,
            final(self).descriptor == old(self).descriptor,
            final(self).next_offset == old(self).next_offset,
            final(self).pool.in_flight_segments().len() < old(self).pool.in_flight_segments().len(),
            final(self).record.stats.blocks_recovered >= old(self).record.stats.blocks_recovered,
            final(self).record.stats.progress >= old(self).record.stats.progress,
            final(self).record.stats.tasks_total == old(self).record.stats.tasks_total,
            old(self).record.last_failure is Some ==> final(self).record.last_failure is Some,
    {
        let ghost prev = self.pool.in_flight_segments();
        let completion = self.backend.await_completion();
        match completion {
            Some((rg, outcome)) => {
                match self.pool.complete(rg) {
                    Some(task) => {
                        proof {
                            let i = choose|i: int|
                                0 <= i < prev.len() && prev[i] == rg
                                    && self.pool.in_flight_segments() == prev.remove(i);
                            lemma_sum_blocks_remove(prev, i);
                            lemma_sum_blocks_element_bound(prev, i);
                            let segs = self.pool.in_flight_segments();
                            assert(forall|j: int|
                                0 <= j < segs.len() ==> segs[j] == (if j < i {
                                    prev[j]
                                } else {
                                    prev[j + 1]
                                }));
                        }
                        match outcome {
                            Ok(()) => {
                                let blocks = task.segment.end - task.segment.start;
                                self.record.on_success(blocks);
                            },
                            Err(e) => {
                                self.record.on_task_failed(rg, e);
                            },
                        }
                    },
                    None => {
                        proof {
                            lemma_sum_blocks_element_bound(prev, 0);
                        }
                        let n = self.pool.active();
                        self.pool.clear();
                        self.record.on_backend_lost(n as u64);
                    },
                }
            },
            None => {
                proof {
                    lemma_sum_blocks_element_bound(prev, 0);
                }
                let n = self.pool.active();
                self.pool.clear();
                self.record.on_backend_lost(n as u64);
            },
        }
    }

    /// Await and retire every in-flight task; the state is not
    /// changed. Used before every exit from `Running`, so that no
    /// backend operation is left dangling.
    fn drain_pool(&mut self)
        requires
            old(self).inv(),
            old(self).states.current == RebuildState::Running,
        ensures
            final(self).inv(),
            final(self).states == old(self).states,
            final(self).descriptor == old(self).descriptor,
            final(self).next_offset == old(self).next_offset,
            final(self).pool.in_flight_segments().len() == 0,
            final(self).record.stats.blocks_recovered >= old(self).record.stats.blocks_recovered,
            final(self).record.stats.progress >= old(self).record.stats.progress,
            final(self).record.stats.tasks_total == old(self).record.stats.tasks_total,
            old(self).record.last_failure is Some ==> final(self).record.last_failure is Some,
    {
        while self.pool.active() > 0
            invariant
                self.inv(),
                self.states == old(self).states,
                self.states.current == RebuildState::Running,
                self.descriptor == old(self).descriptor,
                self.next_offset == old(self).next_offset,
                self.record.stats.blocks_recovered >= old(self).record.stats.blocks_recovered,
                self.record.stats.progress >= old(self).record.stats.progress,
                self.record.stats.tasks_total == old(self).record.stats.tasks_total,
                old(self).record.last_failure is Some ==> self.record.last_failure is Some,
            decreases self.pool.in_flight_segments().len(),
        {
            self.process_completion();
        }
    }

    /// Resolve the job's situation after a step of work: a recorded
    /// failure drains what is left and moves to `Failed`; a fully
    /// dispatched, fully completed range moves to `Completed`;
    /// otherwise the job stays `Running`.
    fn settle(&mut self)
        requires
            old(self).inv(),
            old(self).states.current == RebuildState::Running,
        ensures
            final(self).inv(),
            final(self).descriptor == old(self).descriptor,
            final(self).next_offset == old(self).next_offset,
            final(self).record.stats.blocks_recovered >= old(self).record.stats.blocks_recovered,
            final(self).record.stats.progress >= old(self).record.stats.progress,
            final(self).record.stats.tasks_total == old(self).record.stats.tasks_total,
            final(self).pool.in_flight_segments().len() <= old(
                self,
            ).pool.in_flight_segments().len(),
            final(self).states.current == RebuildState::Running || final(self).states.current
                == RebuildState::Failed || final(self).states.current == RebuildState::Completed,
            final(self).states.current == RebuildState::Running ==> final(self).record.last_failure is None && !(final(self).pool.in_flight_segments().len() == 0
                && final(self).next_offset == final(self).descriptor.range.end) && final(self).pool.in_flight_segments() == old(self).pool.in_flight_segments(),
            old(self).record.last_failure is Some ==> final(self).states.current
                == RebuildState::Failed,
            (old(self).record.last_failure is None && old(self).pool.in_flight_segments().len()
                == 0 && old(self).next_offset == old(self).descriptor.range.end) ==> final(self).states.current == RebuildState::Completed,
    {
        if self.record.last_failure.is_some() {
            self.drain_pool();
            match self.states.transition(RebuildOperation::Fail) {
                Ok(_) => {},
                Err(_) => {
                    proof {
                        assert(false);
                    }
                },
            }
        } else if self.pool.active() == 0 && self.next_offset == self.descriptor.range.end {
            match self.states.transition(RebuildOperation::Complete) {
                Ok(_) => {},
                Err(_) => {
                    proof {
                        assert(false);
                    }
                },
            }
        }
    }

    /// Begin the rebuild: valid only from `Init`; moves to `Running`
    /// and dispatches segments in ascending order up to the pool
    /// capacity. A backend refusal during the initial dispatch drains
    /// what was started and fails the job. Any other starting state is
    /// rejected with `InvalidStateTransition`, leaving the job
    /// unchanged.
    pub fn start(&mut self) -> (r: Result<(), RebuildError>)
        requires
            old(self).inv(),
        ensures
            final(self).inv(),
            final(self).descriptor_spec() == old(self).descriptor_spec(),
            final(self).stats_spec().blocks_recovered >= old(self).stats_spec().blocks_recovered,
            final(self).stats_spec().progress >= old(self).stats_spec().progress,
            match r {
                Ok(()) => {
                    &&& old(self).state_spec() == RebuildState::Init
                    &&& (final(self).state_spec() == RebuildState::Running || final(self).state_spec() == RebuildState::Failed)
                    &&& (final(self).state_spec() == RebuildState::Running <==> final(self).last_failure_spec() is None)
                    &&& (final(self).state_spec() == RebuildState::Running ==> final(self).in_flight_spec().len() == SEGMENT_TASKS || final(self).next_offset_spec()
                        == final(self).descriptor_spec().range.end)
                },
                Err(e) => {
                    &&& e == RebuildError::InvalidStateTransition
                    &&& old(self).state_spec() != RebuildState::Init
                    &&& final(self).state_spec() == old(self).state_spec()
                    &&& final(self).stats_spec() == old(self).stats_spec()
                    &&& final(self).last_failure_spec() == old(self).last_failure_spec()
                    &&& final(self).next_offset_spec() == old(self).next_offset_spec()
                },
            },
    {
        match self.states.transition(RebuildOperation::Start) {
            Ok(_) => {},
            Err(e) => {
                return Err(e);
            },
        }
        self.fill_then_settle();
        Ok(())
    }

    /// Dispatch segments while capacity and segments remain, then
    /// settle the state; shared by `start` and `resume`.
    fn fill_then_settle(&mut self)
        requires
            old(self).inv(),
            old(self).states.current == RebuildState::Running,
            old(self).record.last_failure is None,
        ensures
            final(self).inv(),
            final(self).descriptor == old(self).descriptor,
            final(self).record.stats.blocks_recovered >= old(self).record.stats.blocks_recovered,
            final(self).record.stats.progress >= old(self).record.stats.progress,
            final(self).next_offset >= old(self).next_offset,
            final(self).states.current == RebuildState::Running || final(self).states.current
                == RebuildState::Failed,
            (final(self).states.current == RebuildState::Running <==> final(self).record.last_failure is None),
            final(self).states.current == RebuildState::Running ==> final(self).pool.in_flight_segments().len() == SEGMENT_TASKS || final(self).next_offset == final(self).descriptor.range.end,
    {
        while self.pool.has_capacity() && self.next_offset < self.descriptor.range.end
            invariant
                self.inv(),
                self.states == old(self).states,
                self.states.current == RebuildState::Running,
                self.descriptor == old(self).descriptor,
                self.record.stats.blocks_recovered == old(self).record.stats.blocks_recovered,
                self.record.stats.progress == old(self).record.stats.progress,
                self.next_offset >= old(self).next_offset,
                self.record.last_failure is None,
            decreases self.descriptor.range.end - self.next_offset,
        {
            match self.dispatch_one() {
                Ok(()) => {},
                Err((rg, e)) => {
                    self.record.note_failure(
                        RebuildError::SegmentCopyFailed { range: rg, cause: e },
                    );
                    self.drain_pool();
                    match self.states.transition(RebuildOperation::Fail) {
                        Ok(_) => {},
                        Err(_) => {
                            proof {
                                assert(false);
                            }
                        },
                    }
                    return ;
                },
            }
        }
        proof {
            assert(self.pool.in_flight_segments().len() == SEGMENT_TASKS || self.next_offset
                == self.descriptor.range.end);
        }
    }

    /// Suspend the rebuild: valid only from `Running`. New dispatch
    /// stops, every in-flight task is awaited, and the job moves to
    /// `Paused` — or to `Failed` when a copy failed while draining.
    /// Any other state is rejected with `InvalidStateTransition`,
    /// leaving the job unchanged.
    pub fn pause(&mut self) -> (r: Result<(), RebuildError>)
        requires
            old(self).inv(),
        ensures
            final(self).inv(),
            final(self).descriptor_spec() == old(self).descriptor_spec(),
            final(self).stats_spec().blocks_recovered >= old(self).stats_spec().blocks_recovered,
            final(self).stats_spec().progress >= old(self).stats_spec().progress,
            match r {
                Ok(()) => {
                    &&& old(self).state_spec() == RebuildState::Running
                    &&& (final(self).state_spec() == RebuildState::Paused || final(self).state_spec() == RebuildState::Failed)
                    &&& (final(self).state_spec() == RebuildState::Paused <==> final(self).last_failure_spec() is None)
                    &&& final(self).in_flight_spec().len() == 0
                    &&& final(self).stats_spec().tasks_active == 0
                    &&& final(self).next_offset_spec() == old(self).next_offset_spec()
                },
                Err(e) => {
                    &&& e == RebuildError::InvalidStateTransition
                    &&& old(self).state_spec() != RebuildState::Running
                    &&& final(self).state_spec() == old(self).state_spec()
                    &&& final(self).stats_spec() == old(self).stats_spec()
                    &&& final(self).last_failure_spec() == old(self).last_failure_spec()
                    &&& final(self).next_offset_spec() == old(self).next_offset_spec()
                },
            },
    {
        match self.states.current {
            RebuildState::Running => {},
            _ => {
                return Err(RebuildError::InvalidStateTransition);
            },
        }
        self.drain_pool();
        if self.record.last_failure.is_none() {
            match self.states.transition(RebuildOperation::Pause) {
                Ok(_) => {},
                Err(_) => {
                    proof {
                        assert(false);
                    }
                },
            }
        } else {
            match self.states.transition(RebuildOperation::Fail) {
                Ok(_) => {},
                Err(_) => {
                    proof {
                        assert(false);
                    }
                },
            }
        }
        Ok(())
    }

    /// Continue a suspended rebuild: valid only from `Paused`; moves
    /// back to `Running` and dispatches from the first previously
    /// undispatched offset. Any other state is rejected with
    /// `InvalidStateTransition`, leaving the job unchanged.
    pub fn resume(&mut self) -> (r: Result<(), RebuildError>)
        requires
            old(self).inv(),
        ensures
            final(self).inv(),
            final(self).descriptor_spec() == old(self).descriptor_spec(),
            final(self).stats_spec().blocks_recovered >= old(self).stats_spec().blocks_recovered,
            final(self).stats_spec().progress >= old(self).stats_spec().progress,
            match r {
                Ok(()) => {
                    &&& old(self).state_spec() == RebuildState::Paused
                    &&& (final(self).state_spec() == RebuildState::Running || final(self).state_spec() == RebuildState::Failed)
                    &&& (final(self).state_spec() == RebuildState::Running <==> final(self).last_failure_spec() is None)
                    &&& final(self).next_offset_spec() >= old(self).next_offset_spec()
                },
                Err(e) => {
                    &&& e == RebuildError::InvalidStateTransition
                    &&& old(self).state_spec() != RebuildState::Paused
                    &&& final(self).state_spec() == old(self).state_spec()
                    &&& final(self).stats_spec() == old(self).stats_spec()
                    &&& final(self).last_failure_spec() == old(self).last_failure_spec()
                    &&& final(self).next_offset_spec() == old(self).next_offset_spec()
                },
            },
    {
        match self.states.transition(RebuildOperation::Resume) {
            Ok(_) => {},
            Err(e) => {
                return Err(e);
            },
        }
        self.fill_then_settle();
        Ok(())
    }

    /// Terminate the rebuild: valid from `Running` or `Paused`. New
    /// dispatch stops, every in-flight task is awaited, and the job
    /// moves to `Stopped`; after the call returns, no backend
    /// operation for this job is outstanding and none will be issued.
    /// Any other state is rejected with `InvalidStateTransition`,
    /// leaving the job unchanged.
    pub fn stop(&mut self) -> (r: Result<(), RebuildError>)
        requires
            old(self).inv(),
        ensures
            final(self).inv(),
            final(self).descriptor_spec() == old(self).descriptor_spec(),
            final(self).stats_spec().blocks_recovered >= old(self).stats_spec().blocks_recovered,
            final(self).stats_spec().progress >= old(self).stats_spec().progress,
            match r {
                Ok(()) => {
                    &&& (old(self).state_spec() == RebuildState::Running || old(self).state_spec()
                        == RebuildState::Paused)
                    &&& final(self).state_spec() == RebuildState::Stopped
                    &&& final(self).in_flight_spec().len() == 0
                    &&& final(self).stats_spec().tasks_active == 0
                    &&& final(self).next_offset_spec() == old(self).next_offset_spec()
                },
                Err(e) => {
                    &&& e == RebuildError::InvalidStateTransition
                    &&& old(self).state_spec() != RebuildState::Running
                    &&& old(self).state_spec() != RebuildState::Paused
                    &&& final(self).state_spec() == old(self).state_spec()
                    &&& final(self).stats_spec() == old(self).stats_spec()
                    &&& final(self).last_failure_spec() == old(self).last_failure_spec()
                    &&& final(self).next_offset_spec() == old(self).next_offset_spec()
                },
            },
    {
        match self.states.current {
            RebuildState::Running => {
                self.drain_pool();
            },
            RebuildState::Paused => {},
            _ => {
                return Err(RebuildError::InvalidStateTransition);
            },
        }
        match self.states.transition(RebuildOperation::Stop) {
            Ok(_) => {},
            Err(_) => {
                proof {
                    assert(false);
                }
            },
        }
        Ok(())
    }

    /// Await one completion while `Running`, without dispatching
    /// anything new. Returns `Ok(true)` when a completion was
    /// processed; `Ok(false)` when nothing was in flight — in which
    /// case a fully dispatched range is settled to `Completed`. Any
    /// other state is rejected with `InvalidStateTransition`, leaving
    /// the job unchanged.
    pub fn await_one(&mut self) -> (r: Result<bool, RebuildError>)
        requires
            old(self).inv(),
        ensures
            final(self).inv(),
            final(self).descriptor_spec() == old(self).descriptor_spec(),
            final(self).stats_spec().blocks_recovered >= old(self).stats_spec().blocks_recovered,
            final(self).stats_spec().progress >= old(self).stats_spec().progress,
            final(self).next_offset_spec() == old(self).next_offset_spec(),
            match r {
                Ok(processed) => {
                    &&& old(self).state_spec() == RebuildState::Running
                    &&& (final(self).state_spec() == RebuildState::Running || final(self).state_spec() == RebuildState::Failed || final(self).state_spec()
                        == RebuildState::Completed)
                    &&& (final(self).state_spec() == RebuildState::Running ==> final(self).last_failure_spec() is None)
                    &&& (processed ==> old(self).in_flight_spec().len() > 0 && final(self).in_flight_spec().len() < old(self).in_flight_spec().len())
                    &&& (!processed ==> old(self).in_flight_spec().len() == 0)
                    &&& ((!processed && old(self).last_failure_spec() is None && old(
                        self,
                    ).next_offset_spec() == old(self).descriptor_spec().range.end) ==> final(self).state_spec() == RebuildState::Completed)
                },
                Err(e) => {
                    &&& e == RebuildError::InvalidStateTransition
                    &&& old(self).state_spec() != RebuildState::Running
                    &&& final(self).state_spec() == old(self).state_spec()
                    &&& final(self).stats_spec() == old(self).stats_spec()
                    &&& final(self).last_failure_spec() == old(self).last_failure_spec()
                },
            },
    {
        match self.states.current {
            RebuildState::Running => {},
            _ => {
                return Err(RebuildError::InvalidStateTransition);
            },
        }
        if self.pool.active() == 0 {
            self.settle();
            Ok(false)
        } else {
            self.process_completion();
            self.settle();
            Ok(true)
        }
    }

    /// Drive the rebuild until it reaches a terminal state and return
    /// it. From `Running` this runs the core loop: dispatch the next
    /// segment while capacity and segments remain, otherwise await a
    /// completion; on a failed copy stop dispatching, drain and fail.
    /// A job in `Init` or `Paused` cannot progress without a control
    /// call, so its current state is returned unchanged; a terminal
    /// job is returned as is.
    pub fn wait_terminal(&mut self) -> (r: RebuildState)
        requires
            old(self).inv(),
        ensures
            final(self).inv(),
            final(self).descriptor_spec() == old(self).descriptor_spec(),
            final(self).stats_spec().blocks_recovered >= old(self).stats_spec().blocks_recovered,
            final(self).stats_spec().progress >= old(self).stats_spec().progress,
            r == final(self).state_spec(),
            old(self).state_spec() == RebuildState::Running ==> (r == RebuildState::Failed || r
                == RebuildState::Completed),
            old(self).state_spec() != RebuildState::Running ==> r == old(self).state_spec()
                && final(self).stats_spec() == old(self).stats_spec(),
    {
        match self.states.current {
            RebuildState::Running => {},
            s => {
                return s;
            },
        }
        self.settle();
        while !self.states.current.is_terminal()
            invariant
                self.inv(),
                self.descriptor == old(self).descriptor,
                self.record.stats.blocks_recovered >= old(self).record.stats.blocks_recovered,
                self.record.stats.progress >= old(self).record.stats.progress,
                self.states.current == RebuildState::Running || self.states.current
                    == RebuildState::Failed || self.states.current == RebuildState::Completed,
                self.states.current == RebuildState::Running ==> self.record.last_failure is None
                    && !(self.pool.in_flight_segments().len() == 0 && self.next_offset
                    == self.descriptor.range.end),
            decreases
                    self.descriptor.range.end - self.next_offset,
                    self.pool.in_flight_segments().len(),
                    (if spec_is_terminal(self.states.current) {
                        0int
                    } else {
                        1int
                    }),
        {
            if self.pool.has_capacity() && self.next_offset < self.descriptor.range.end {
                match self.dispatch_one() {
                    Ok(()) => {},
                    Err((rg, e)) => {
                        self.record.note_failure(
                            RebuildError::SegmentCopyFailed { range: rg, cause: e },
                        );
                    },
                }
            } else {
                self.process_completion();
            }
            self.settle();
        }
        proof {
            assert(self.states.current != RebuildState::Running);
        }
        self.states.current
    }
}

/// The jobs of one node, at most one per target replica: a second
/// rebuild of a target that already has one is refused, so no two
/// jobs ever write the same target concurrently.
pub struct RebuildJobList<B: RebuildBackend> {
    jobs: Vec<RebuildJob<B>>,
}

impl<B: RebuildBackend> RebuildJobList<B> {
    /// The registered jobs, in insertion order.
    pub closed spec fn jobs_spec(self) -> Seq<RebuildJob<B>> {
        self.jobs@
    }

    /// The target URIs of the registered jobs.
    pub open spec fn targets(self) -> Seq<Seq<char>> {
        self.jobs_spec().map(|i: int, j: RebuildJob<B>| j.descriptor_spec().dst_uri@)
    }

    /// No two registered jobs share a target.
    pub open spec fn inv(self) -> bool {
        forall|i: int, j: int|
            0 <= i < j < self.targets().len() ==> self.targets()[i] != self.targets()[j]
    }

    /// An empty registry.
    pub fn new() -> (r: RebuildJobList<B>)
        ensures
            r.inv(),
            r.jobs_spec().len() == 0,
    {
        RebuildJobList { jobs: Vec::new() }
    }

    /// Number of registered jobs.
    pub fn len(&self) -> (r: usize)
        ensures
            r == self.jobs_spec().len(),
    {
        self.jobs.len()
    }

    /// Read access to the job at `i`.
    pub fn get(&self, i: usize) -> (r: &RebuildJob<B>)
        requires
            i < self.jobs_spec().len(),
        ensures
            *r == self.jobs_spec()[i as int],
    {
        &self.jobs[i]
    }

    /// Register a job. Fails with `JobAlreadyExists` exactly when a
    /// job for the same target is already registered, leaving the
    /// registry unchanged.
    pub fn add(&mut self, job: RebuildJob<B>) -> (r: Result<(), RebuildError>)
        requires
            old(self).inv(),
        ensures
            final(self).inv(),
            match r {
                Ok(()) => !old(self).targets().contains(job.descriptor_spec().dst_uri@)
                    && final(self).jobs_spec() == old(self).jobs_spec().push(job),
                Err(e) => e == RebuildError::JobAlreadyExists && old(self).targets().contains(
                    job.descriptor_spec().dst_uri@,
                ) && final(self).jobs_spec() == old(self).jobs_spec(),
            },
    {
        let n = self.jobs.len();
        let mut i: usize = 0;
        while i < n
            invariant
                old(self).inv(),
                *self == *old(self),
                n == self.jobs@.len(),
                0 <= i <= n,
                forall|k: int| 0 <= k < i ==> self.targets()[k] != job.descriptor_spec().dst_uri@,
            decreases n - i,
        {
            if self.jobs[i].descriptor.dst_uri == job.descriptor.dst_uri {
                proof {
                    assert(self.targets()[i as int] == job.descriptor_spec().dst_uri@);
                }
                return Err(RebuildError::JobAlreadyExists);
            }
            i = i + 1;
        }
        self.jobs.push(job);
        proof {
            let ts = final(self).targets();
            let prev = old(self).targets();
            assert forall|a: int, b: int| 0 <= a < b < ts.len() implies ts[a] != ts[b] by {
                if b < prev.len() {
                    assert(ts[a] == prev[a] && ts[b] == prev[b]);
                } else {
                    assert(ts[b] == job.descriptor_spec().dst_uri@);
                    assert(ts[a] == prev[a]);
                }
            }
        }
        Ok(())
    }

    /// Find the registered job for `dst_uri`. Fails with `JobNotFound`
    /// exactly when no job for that target is registered.
    pub fn lookup(&self, dst_uri: &String) -> (r: Result<usize, RebuildError>)
        ensures
            match r {
                Ok(i) => i < self.jobs_spec().len() && self.jobs_spec()[i as int].descriptor_spec().dst_uri@
                    == dst_uri@,
                Err(e) => e == RebuildError::JobNotFound && !self.targets().contains(dst_uri@),
            },
    {
        let n = self.jobs.len();
        let mut i: usize = 0;
        while i < n
            invariant
                n == self.jobs@.len(),
                0 <= i <= n,
                forall|k: int| 0 <= k < i ==> self.targets()[k] != dst_uri@,
            decreases n - i,
        {
            if self.jobs[i].descriptor.dst_uri == *dst_uri {
                return Ok(i);
            }
            i = i + 1;
        }
        Err(RebuildError::JobNotFound)
    }

    /// Remove and hand back the job for `dst_uri`. Fails with
    /// `JobNotFound` exactly when no job for that target is
    /// registered, leaving the registry unchanged.
    pub fn remove(&mut self, dst_uri: &String) -> (r: Result<RebuildJob<B>, RebuildError>)
        requires
            old(self).inv(),
        ensures
            final(self).inv(),
            match r {
                Ok(j) => {
                    &&& j.descriptor_spec().dst_uri@ == dst_uri@
                    &&& exists|i: int|
                        0 <= i < old(self).jobs_spec().len() && old(self).jobs_spec()[i] == j
                            && final(self).jobs_spec() == old(self).jobs_spec().remove(i)
                },
                Err(e) => e == RebuildError::JobNotFound && !old(self).targets().contains(dst_uri@)
                    && final(self).jobs_spec() == old(self).jobs_spec(),
            },
    {
        let n = self.jobs.len();
        let mut i: usize = 0;
        while i < n
            invariant
                old(self).inv(),
                *self == *old(self),
                n == self.jobs@.len(),
                0 <= i <= n,
                forall|k: int| 0 <= k < i ==> self.targets()[k] != dst_uri@,
            decreases n - i,
        {
            if self.jobs[i].descriptor.dst_uri == *dst_uri {
                let j = self.jobs.remove(i);
                proof {
                    let ts = final(self).targets();
                    let prev = old(self).targets();
                    assert(final(self).jobs_spec() =~= old(self).jobs_spec().remove(i as int));
                    old(self).jobs_spec().remove_ensures(i as int);
                    assert forall|a: int, b: int| 0 <= a < b < ts.len() implies ts[a] != ts[b] by {
                        let pa = if a < i as int {
                            a
                        } else {
                            a + 1
                        };
                        let pb = if b < i as int {
                            b
                        } else {
                            b + 1
                        };
                        assert(final(self).jobs_spec()[a] == old(self).jobs_spec()[pa]);
                        assert(final(self).jobs_spec()[b] == old(self).jobs_spec()[pb]);
                        assert(ts[a] == prev[pa] && ts[b] == prev[pb]);
                    }
                }
                return Ok(j);
            }
            i = i + 1;
        }
        Err(RebuildError::JobNotFound)
    }
}

/// Concurrency bound: at every instant the number of in-flight tasks
/// is at most `SEGMENT_TASKS`.
pub proof fn lemma_concurrency_bound<B: RebuildBackend>(job: RebuildJob<B>)
    requires
        job.inv(),
    ensures
        job.in_flight_spec().len() <= SEGMENT_TASKS,
        job.stats_spec().tasks_active <= SEGMENT_TASKS as u64,
{
}

/// Completeness: a job in `Completed` has recovered every block of
/// its total range and reports 100% progress.
pub proof fn lemma_completed_recovers_all<B: RebuildBackend>(job: RebuildJob<B>)
    requires
        job.inv(),
        job.state_spec() == RebuildState::Completed,
    ensures
        job.stats_spec().blocks_recovered == job.stats_spec().blocks_total,
        job.stats_spec().progress == 100,
{
    assert(sum_blocks(job.in_flight_spec()) == 0);
    vstd::arithmetic::div_mod::lemma_div_multiples_vanish(
        100,
        job.stats_spec().blocks_total as int,
    );
}

/// Dispatch order and disjointness: the segments concurrently in
/// flight stand in strictly ascending offset order, pairwise
/// disjoint, and all lie below the dispatch cursor — the backend is
/// never asked to copy overlapping ranges concurrently.
pub proof fn lemma_in_flight_disjoint_ascending<B: RebuildBackend>(
    job: RebuildJob<B>,
    i: int,
    j: int,
)
    requires
        job.inv(),
        0 <= i < j < job.in_flight_spec().len(),
    ensures
        job.in_flight_spec()[i].end <= job.in_flight_spec()[j].start,
        job.in_flight_spec()[j].end <= job.next_offset_spec(),
{
}

/// Drain guarantee: a job that is not `Running` has no task in
/// flight, so no backend operation is outstanding for it.
pub proof fn lemma_drained_unless_running<B: RebuildBackend>(job: RebuildJob<B>)
    requires
        job.inv(),
        job.state_spec() != RebuildState::Running,
    ensures
        job.in_flight_spec().len() == 0,
        job.stats_spec().tasks_active == 0,
{
}

} // verus!
