//! Errors surfaced by the rebuild engine.

use vstd::prelude::*;
use crate::range::Range;

verus! {

/// Failure reported by the backend for a single segment copy.
#[derive(Clone, Copy, Debug, PartialEq, Eq, Structural)]
pub struct BackendError {
    /// Backend-specific error code.
    pub code: u32,
}

/// Errors returned by job construction and control operations, or
/// recorded when a rebuild fails.
#[derive(Clone, Copy, Debug, PartialEq, Eq, Structural)]
pub enum RebuildError {
    /// The requested range is malformed or reaches outside its bound.
    RangeOutOfBounds,
    /// A rebuild job for the same target already exists.
    JobAlreadyExists,
    /// No rebuild job exists for the given target.
    JobNotFound,
    /// The requested control operation is illegal in the current state.
    InvalidStateTransition,
    /// The task pool is at capacity; wait for a completion first.
    PoolSaturated,
    /// The backend failed while copying the given segment.
    SegmentCopyFailed { range: Range, cause: BackendError },
    /// The backend cannot accept operations.
    BackendUnavailable,
}

} // verus!
