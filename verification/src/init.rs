//! The one-time initialisation of the native engine.
//!
//! The engine must be initialised once before anything else is asked of it,
//! and an initialisation that failed is never tried again. The host runs the
//! initialisation; the latch says when, and remembers how it went.

use vstd::prelude::*;

verus! {

/// How far the initialisation of the native engine has come.
#[derive(Clone, Copy, Debug, PartialEq, Eq)]
pub enum InitState {
    /// Not attempted yet.
    Pending,
    /// Attempted, and it succeeded.
    Ready,
    /// Attempted, and it failed. The engine is unusable for good.
    Failed,
}

/// What the host is to do before it touches the native engine.
#[derive(Clone, Copy, Debug, PartialEq, Eq)]
pub enum InitStep {
    /// Run the native initialisation and report its outcome.
    Initialize,
    /// Go on: the engine is initialised.
    Proceed,
    /// Give up: initialisation failed before and is not tried again.
    Abort,
}

/// The step that a state of the initialisation calls for.
pub open spec fn step_for(state: InitState) -> InitStep {
    match state {
        InitState::Pending => InitStep::Initialize,
        InitState::Ready => InitStep::Proceed,
        InitState::Failed => InitStep::Abort,
    }
}

/// The state after an outcome of the native initialisation is reported.
/// Only the first report counts.
pub open spec fn after_report(state: InitState, succeeded: bool) -> InitState {
    match state {
        InitState::Pending => if succeeded {
            InitState::Ready
        } else {
            InitState::Failed
        },
        InitState::Ready => InitState::Ready,
        InitState::Failed => InitState::Failed,
    }
}

/// The latch that lets the native initialisation run once and no more.
pub struct InitLatch {
    pub state: InitState,
}

impl InitLatch {
    /// A latch that nothing has tripped yet.
    pub fn new() -> (latch: InitLatch)
        ensures
            latch.state == InitState::Pending,
    {
        InitLatch { state: InitState::Pending }
    }

    /// What the host is to do before it touches the native engine.
    pub fn next_step(&self) -> (step: InitStep)
        ensures
            step == step_for(self.state),
    {
        match self.state {
            InitState::Pending => InitStep::Initialize,
            InitState::Ready => InitStep::Proceed,
            InitState::Failed => InitStep::Abort,
        }
    }

    /// Records the outcome of the native initialisation. A report after the
    /// first changes nothing.
    pub fn report(&mut self, succeeded: bool)
        ensures
            final(self).state == after_report(old(self).state, succeeded),
    {
        match self.state {
            InitState::Pending => {
                if succeeded {
                    self.state = InitState::Ready;
                } else {
                    self.state = InitState::Failed;
                }
            },
            InitState::Ready => {},
            InitState::Failed => {},
        }
    }
}

/// Once an outcome has been reported, the latch never again asks for the
/// initialisation to run, and no later report changes its state: the
/// initialisation runs at most once, and a failure is final.
pub proof fn law_initialisation_runs_once(state: InitState, first: bool, second: bool)
    ensures
        step_for(after_report(state, first)) != InitStep::Initialize,
        after_report(after_report(state, first), second) == after_report(state, first),
        state == InitState::Pending && !first ==> step_for(
            after_report(after_report(state, first), second),
        ) == InitStep::Abort,
{
}

} // verus!
