//! The foreground supervisor's control flow. While the child's diagnostic
//! output is streamed to the console, the first cancellation request aborts
//! the log drain (so shutdown noise is not printed) and then terminates the
//! child, waiting for its exit. Any further cancellation request only earns
//! a warning: the supervisor never kills twice.

use vstd::prelude::*;

verus! {

/// Where the interactive session stands.
#[derive(PartialEq, Eq, Structural, Clone, Copy, Debug)]
pub enum RunState {
    /// The child runs; its output is being drained to the console.
    Streaming,
    /// A cancellation arrived; the drain task is being aborted.
    AbortingDrain,
    /// The child has been told to terminate; its exit is awaited.
    KillingChild,
    /// The child exited; the session is over.
    Done,
}

/// What the caller reports.
#[derive(PartialEq, Eq, Structural, Clone, Copy, Debug)]
pub enum RunEvent {
    /// The user asked to cancel.
    CancelRequested,
    /// The drain task has been aborted.
    DrainAborted,
    /// The child process exited.
    ChildExited,
}

/// What the caller must do next.
#[derive(PartialEq, Eq, Structural, Clone, Copy, Debug)]
pub enum RunAction {
    /// Abort the output-draining task.
    AbortDrain,
    /// Send the child a terminate request and await its exit.
    KillChild,
    /// Warn that a repeated cancellation was ignored; the first shutdown is
    /// still in progress and the child is not killed again.
    WarnRepeatedCancel,
    /// The session is over.
    Finished,
}

/// Which events a state can take.
pub open spec fn run_expects(s: RunState, e: RunEvent) -> bool {
    match s {
        RunState::Streaming => e is CancelRequested,
        RunState::AbortingDrain => e is CancelRequested || e is DrainAborted,
        RunState::KillingChild => e is CancelRequested || e is ChildExited,
        RunState::Done => false,
    }
}

/// The supervisor's policy for one event.
pub open spec fn run_next(s: RunState, e: RunEvent) -> (RunState, RunAction) {
    match (s, e) {
        (RunState::Streaming, RunEvent::CancelRequested) => (
            RunState::AbortingDrain,
            RunAction::AbortDrain,
        ),
        (RunState::AbortingDrain, RunEvent::DrainAborted) => (
            RunState::KillingChild,
            RunAction::KillChild,
        ),
        (RunState::AbortingDrain, RunEvent::CancelRequested) => (
            RunState::AbortingDrain,
            RunAction::WarnRepeatedCancel,
        ),
        (RunState::KillingChild, RunEvent::CancelRequested) => (
            RunState::KillingChild,
            RunAction::WarnRepeatedCancel,
        ),
        (RunState::KillingChild, RunEvent::ChildExited) => (RunState::Done, RunAction::Finished),
        _ => (s, RunAction::Finished),
    }
}

/// A fresh interactive session.
pub fn run_start() -> (r: RunState)
    ensures
        r == RunState::Streaming,
{
    RunState::Streaming
}

/// Advances the session by one reported event.
pub fn run_step(s: RunState, e: RunEvent) -> (r: (RunState, RunAction))
    requires
        run_expects(s, e),
    ensures
        r == run_next(s, e),
{
    match (s, e) {
        (RunState::Streaming, RunEvent::CancelRequested) => (
            RunState::AbortingDrain,
            RunAction::AbortDrain,
        ),
        (RunState::AbortingDrain, RunEvent::DrainAborted) => (
            RunState::KillingChild,
            RunAction::KillChild,
        ),
        (RunState::AbortingDrain, RunEvent::CancelRequested) => (
            RunState::AbortingDrain,
            RunAction::WarnRepeatedCancel,
        ),
        (RunState::KillingChild, RunEvent::CancelRequested) => (
            RunState::KillingChild,
            RunAction::WarnRepeatedCancel,
        ),
        (RunState::KillingChild, RunEvent::ChildExited) => (RunState::Done, RunAction::Finished),
        _ => (s, RunAction::Finished),
    }
}

/// The child is told to terminate exactly once, directly after the drain
/// task of the first cancellation was aborted; in particular a repeated
/// cancellation request never kills again, it only warns.
pub proof fn lemma_no_double_kill(s: RunState, e: RunEvent)
    requires
        run_expects(s, e),
    ensures
        run_next(s, e).1 == RunAction::KillChild ==> s == RunState::AbortingDrain && e
            == RunEvent::DrainAborted,
        e == RunEvent::CancelRequested && s != RunState::Streaming ==> run_next(s, e).1
            == RunAction::WarnRepeatedCancel && run_next(s, e).0 == s,
{
}

} // verus!
