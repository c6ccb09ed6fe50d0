//! The capability abstraction over the actual copy I/O.

use vstd::prelude::*;
use crate::range::Range;
use crate::rebuild_error::BackendError;

verus! {

/// The I/O capability a rebuild job copies through: a local device
/// pair or a networked child. The backend is injected at job
/// construction and must accept up to the pool's concurrency bound of
/// outstanding copies. A segment copy is all-or-nothing: on failure
/// the backend must not have partially applied the segment.
///
/// The engine makes no assumption about what a backend returns: every
/// outcome handed back, in any order, drives the verified orchestrator
/// logic.
pub trait RebuildBackend {
    /// Begin copying the blocks of `source` on the source replica to
    /// `target` on the target replica. The copy proceeds concurrently
    /// with other outstanding copies; its outcome is reported by
    /// `await_completion`.
    fn copy_segment(&mut self, source: Range, target: Range) -> (r: Result<(), BackendError>)
        requires
            source.wf(),
            target.wf(),
            source.spec_len() == target.spec_len(),
    ;

    /// Wait until one outstanding copy completes; reports its target
    /// segment and outcome. Returns `None` when nothing is
    /// outstanding. Completions may arrive in any order.
    fn await_completion(&mut self) -> (r: Option<(Range, Result<(), BackendError>)>);
}

} // verus!
