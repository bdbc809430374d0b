//! What the engine sees of the decode backend and what it asks of it.
//!
//! The engine never calls the backend. Each operation of the engine takes
//! what the backend reported as plain values and returns what the backend is
//! to do next; whoever owns the pipeline carries both across.

use vstd::prelude::*;

verus! {

/// The state of a backend pipeline.
#[derive(Debug, Clone, Copy, PartialEq, Eq, Structural)]
pub enum PipelineState {
    /// No state is pending.
    VoidPending,
    /// Stopped; every resource is released.
    Null,
    /// Resources are allocated; no data flows.
    Ready,
    /// Data is prerolled; the clock stands still.
    Paused,
    /// The clock runs.
    Playing,
}

impl PipelineState {
    /// The state that a request to pause, or to resume, asks for.
    pub open spec fn target(paused: bool) -> PipelineState {
        if paused {
            PipelineState::Paused
        } else {
            PipelineState::Playing
        }
    }

    /// Whether a pipeline in this state counts as paused.
    pub open spec fn is_paused(self) -> bool {
        self == PipelineState::Paused
    }

    /// The state that a request to pause, or to resume, asks for.
    pub fn for_paused(paused: bool) -> (state: PipelineState)
        ensures
            state == PipelineState::target(paused),
    {
        if paused {
            PipelineState::Paused
        } else {
            PipelineState::Playing
        }
    }

    /// Tells whether a pipeline in this state counts as paused.
    pub fn paused(self) -> (r: bool)
        ensures
            r == self.is_paused(),
    {
        match self {
            PipelineState::Paused => true,
            _ => false,
        }
    }
}

/// What the consumer finds on the message bus of the backend.
#[derive(Debug, Clone, Copy, PartialEq, Eq, Structural)]
pub enum BusEvent {
    /// The backend reports an error.
    Error,
    /// The stream has ended.
    Eos,
}

} // verus!
