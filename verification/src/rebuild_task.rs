//! Copy tasks and the bounded pool of concurrently outstanding tasks.

use vstd::prelude::*;
use crate::range::Range;
use crate::rebuild_error::RebuildError;

verus! {

/// Number of concurrent copy tasks per rebuild job.
pub const SEGMENT_TASKS: usize = 16;

/// One unit of rebuild work: a segment being copied by the backend.
#[derive(Clone, Copy, Debug, PartialEq, Eq, Structural)]
pub struct RebuildTask {
    /// The segment the task is copying.
    pub segment: Range,
}

/// Sum of the block counts of a sequence of segments.
pub open spec fn sum_blocks(s: Seq<Range>) -> int
    decreases s.len(),
{
    if s.len() == 0 {
        0
    } else {
        sum_blocks(s.drop_last()) + s.last().spec_len()
    }
}

/// Appending a segment adds its block count to the sum.
pub proof fn lemma_sum_blocks_push(s: Seq<Range>, r: Range)
    ensures
        sum_blocks(s.push(r)) == sum_blocks(s) + r.spec_len(),
{
    assert(s.push(r).drop_last() =~= s);
    assert(s.push(r).last() == r);
}

/// Removing a segment subtracts its block count from the sum.
pub proof fn lemma_sum_blocks_remove(s: Seq<Range>, i: int)
    requires
        0 <= i < s.len(),
    ensures
        sum_blocks(s.remove(i)) == sum_blocks(s) - s[i].spec_len(),
    decreases s.len(),
{
    if i == s.len() - 1 {
        assert(s.remove(i) =~= s.drop_last());
    } else {
        assert(s.remove(i).drop_last() =~= s.drop_last().remove(i));
        assert(s.remove(i).last() == s.last());
        lemma_sum_blocks_remove(s.drop_last(), i);
    }
}

/// In a sequence of well-formed segments, each element's block count
/// is bounded by the sum.
pub proof fn lemma_sum_blocks_element_bound(s: Seq<Range>, i: int)
    requires
        0 <= i < s.len(),
        forall|j: int| 0 <= j < s.len() ==> (#[trigger] s[j]).wf(),
    ensures
        s[i].spec_len() <= sum_blocks(s),
        sum_blocks(s) >= 0,
    decreases s.len(),
{
    assert(forall|j: int|
        0 <= j < s.drop_last().len() ==> (#[trigger] s.drop_last()[j]) == s[j]);
    if s.len() == 1 {
        assert(s.drop_last() =~= Seq::<Range>::empty());
        assert(sum_blocks(s.drop_last()) == 0);
    } else if i == s.len() - 1 {
        lemma_sum_blocks_element_bound(s.drop_last(), 0);
    } else {
        lemma_sum_blocks_element_bound(s.drop_last(), i);
    }
}

/// Bounded set of concurrently outstanding tasks: at most
/// `SEGMENT_TASKS` tasks are ever in flight.
#[derive(Clone, Debug)]
pub struct RebuildTaskPool {
    in_flight: Vec<RebuildTask>,
}

impl RebuildTaskPool {
    /// The segments currently in flight, in dispatch order.
    pub closed spec fn in_flight_segments(self) -> Seq<Range> {
        self.in_flight@.map(|i: int, t: RebuildTask| t.segment)
    }

    /// Concurrency bound: never more than `SEGMENT_TASKS` tasks in
    /// flight.
    pub open spec fn wf(self) -> bool {
        self.in_flight_segments().len() <= SEGMENT_TASKS
    }

    /// A fresh pool with nothing in flight.
    pub fn new() -> (r: RebuildTaskPool)
        ensures
            r.wf(),
            r.in_flight_segments().len() == 0,
    {
        RebuildTaskPool { in_flight: Vec::new() }
    }

    /// Number of tasks currently in flight.
    pub fn active(&self) -> (r: usize)
        ensures
            r == self.in_flight_segments().len(),
    {
        self.in_flight.len()
    }

    /// True when one more task may be dispatched.
    pub fn has_capacity(&self) -> (r: bool)
        ensures
            r == (self.in_flight_segments().len() < SEGMENT_TASKS),
    {
        self.in_flight.len() < SEGMENT_TASKS
    }

    /// Admit one task. Fails with `PoolSaturated` exactly when the
    /// pool is already at capacity, leaving it unchanged.
    pub fn dispatch(&mut self, task: RebuildTask) -> (r: Result<(), RebuildError>)
        requires
            old(self).wf(),
        ensures
            final(self).wf(),
            match r {
                Ok(()) => old(self).in_flight_segments().len() < SEGMENT_TASKS
                    && final(self).in_flight_segments()
                    == old(self).in_flight_segments().push(task.segment),
                Err(e) => e == RebuildError::PoolSaturated
                    && old(self).in_flight_segments().len() == SEGMENT_TASKS
                    && *final(self) == *old(self),
            },
    {
        if self.in_flight.len() >= SEGMENT_TASKS {
            return Err(RebuildError::PoolSaturated);
        }
        self.in_flight.push(task);
        proof {
            assert(final(self).in_flight_segments() =~= old(self).in_flight_segments().push(
                task.segment,
            ));
        }
        Ok(())
    }

    /// Abandon every in-flight task; used only when the backend has
    /// become inconsistent with the pool and the job is failing.
    pub fn clear(&mut self)
        ensures
            final(self).wf(),
            final(self).in_flight_segments().len() == 0,
    {
        self.in_flight = Vec::new();
        proof {
            assert(final(self).in_flight_segments() =~= Seq::<Range>::empty());
        }
    }

    /// Retire the in-flight task copying `segment`, if any: the task
    /// leaves the pool and is handed back for result consumption.
    /// Returns `None`, leaving the pool unchanged, when no in-flight
    /// task matches.
    pub fn complete(&mut self, segment: Range) -> (r: Option<RebuildTask>)
        requires
            old(self).wf(),
        ensures
            final(self).wf(),
            match r {
                Some(t) => {
                    &&& t.segment == segment
                    &&& exists|i: int|
                        0 <= i < old(self).in_flight_segments().len() && old(
                            self,
                        ).in_flight_segments()[i] == segment && final(self).in_flight_segments()
                            == old(self).in_flight_segments().remove(i)
                },
                None => final(self).in_flight_segments() == old(self).in_flight_segments() && !old(
                    self,
                ).in_flight_segments().contains(segment),
            },
    {
        let n = self.in_flight.len();
        let mut i: usize = 0;
        while i < n
            invariant
                self.in_flight@ == old(self).in_flight@,
                old(self).wf(),
                n == self.in_flight.len(),
                0 <= i <= n,
                forall|j: int| 0 <= j < i ==> old(self).in_flight_segments()[j] != segment,
            decreases n - i,
        {
            if self.in_flight[i].segment == segment {
                proof {
                    assert(old(self).in_flight_segments()[i as int] == segment);
                }
                let t = self.in_flight.remove(i);
                proof {
                    assert(final(self).in_flight_segments() =~= old(
                        self,
                    ).in_flight_segments().remove(i as int));
                }
                return Some(t);
            }
            i = i + 1;
        }
        None
    }
}

} // verus!
