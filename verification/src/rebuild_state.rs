//! The rebuild job lifecycle state machine.

use vstd::prelude::*;
use crate::rebuild_error::RebuildError;

verus! {

/// Lifecycle state of a rebuild job.
#[derive(Clone, Copy, Debug, PartialEq, Eq, Structural)]
pub enum RebuildState {
    /// Created, not started.
    Init,
    /// Actively dispatching and awaiting segment copies.
    Running,
    /// All in-flight work drained, waiting for resume.
    Paused,
    /// Caller-requested terminal state.
    Stopped,
    /// Error-driven terminal state.
    Failed,
    /// Success terminal state.
    Completed,
}

/// Operations that drive the state machine.
#[derive(Clone, Copy, Debug, PartialEq, Eq, Structural)]
pub enum RebuildOperation {
    /// Begin dispatching from `Init`.
    Start,
    /// Drain and suspend a `Running` job.
    Pause,
    /// Resume a `Paused` job.
    Resume,
    /// Drain and terminate a `Running` or `Paused` job.
    Stop,
    /// A segment copy failed; the job is fatally wounded.
    Fail,
    /// The last segment completed successfully.
    Complete,
}

/// The legal transitions: the next state for `(state, op)`, or `None`
/// when the operation is illegal in that state.
pub open spec fn spec_transition(s: RebuildState, op: RebuildOperation) -> Option<RebuildState> {
    match (s, op) {
        (RebuildState::Init, RebuildOperation::Start) => Some(RebuildState::Running),
        (RebuildState::Running, RebuildOperation::Pause) => Some(RebuildState::Paused),
        (RebuildState::Paused, RebuildOperation::Resume) => Some(RebuildState::Running),
        (RebuildState::Running, RebuildOperation::Stop) => Some(RebuildState::Stopped),
        (RebuildState::Paused, RebuildOperation::Stop) => Some(RebuildState::Stopped),
        (RebuildState::Running, RebuildOperation::Fail) => Some(RebuildState::Failed),
        (RebuildState::Running, RebuildOperation::Complete) => Some(RebuildState::Completed),
        _ => None,
    }
}

/// States from which no further transition is possible.
pub open spec fn spec_is_terminal(s: RebuildState) -> bool {
    s == RebuildState::Stopped || s == RebuildState::Failed || s == RebuildState::Completed
}

impl RebuildState {
    /// True for `Stopped`, `Failed` and `Completed`.
    pub fn is_terminal(&self) -> (r: bool)
        ensures
            r == spec_is_terminal(*self),
    {
        match self {
            RebuildState::Stopped | RebuildState::Failed | RebuildState::Completed => true,
            _ => false,
        }
    }
}

/// Holder of the current state of one job, mutated only through
/// `transition`, which rejects every operation the machine does not
/// allow.
#[derive(Clone, Copy, Debug, PartialEq, Eq, Structural)]
pub struct RebuildStates {
    /// The current lifecycle state.
    pub current: RebuildState,
}

impl RebuildStates {
    /// A fresh job starts in `Init`.
    pub fn new() -> (r: RebuildStates)
        ensures
            r.current == RebuildState::Init,
    {
        RebuildStates { current: RebuildState::Init }
    }

    /// Apply `op`: moves to the listed next state, or rejects the
    /// operation with `InvalidStateTransition` leaving the state
    /// unchanged.
    pub fn transition(&mut self, op: RebuildOperation) -> (r: Result<RebuildState, RebuildError>)
        ensures
            match spec_transition(old(self).current, op) {
                Some(next) => r == Ok::<RebuildState, RebuildError>(next) && final(self).current
                    == next,
                None => r == Err::<RebuildState, RebuildError>(
                    RebuildError::InvalidStateTransition,
                ) && final(self).current == old(self).current,
            },
    {
        let next = match (self.current, op) {
            (RebuildState::Init, RebuildOperation::Start) => Some(RebuildState::Running),
            (RebuildState::Running, RebuildOperation::Pause) => Some(RebuildState::Paused),
            (RebuildState::Paused, RebuildOperation::Resume) => Some(RebuildState::Running),
            (RebuildState::Running, RebuildOperation::Stop) => Some(RebuildState::Stopped),
            (RebuildState::Paused, RebuildOperation::Stop) => Some(RebuildState::Stopped),
            (RebuildState::Running, RebuildOperation::Fail) => Some(RebuildState::Failed),
            (RebuildState::Running, RebuildOperation::Complete) => Some(RebuildState::Completed),
            _ => None,
        };
        match next {
            Some(s) => {
                self.current = s;
                Ok(s)
            },
            None => Err(RebuildError::InvalidStateTransition),
        }
    }
}

/// State machine legality: an operation is accepted exactly in the
/// states listed for it, and a terminal state accepts none.
pub proof fn lemma_state_machine_legality(s: RebuildState, op: RebuildOperation)
    ensures
        spec_transition(s, op) is Some <==> ((s == RebuildState::Init && op
            == RebuildOperation::Start) || (s == RebuildState::Running && op
            == RebuildOperation::Pause) || (s == RebuildState::Paused && op
            == RebuildOperation::Resume) || (s == RebuildState::Running && op
            == RebuildOperation::Stop) || (s == RebuildState::Paused && op
            == RebuildOperation::Stop) || (s == RebuildState::Running && op
            == RebuildOperation::Fail) || (s == RebuildState::Running && op
            == RebuildOperation::Complete)),
        spec_is_terminal(s) ==> spec_transition(s, op) is None,
{
}

} // verus!
