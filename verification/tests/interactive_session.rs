use wash_up::interactive::run_start;
use wash_up::interactive::run_step;
use wash_up::interactive::RunAction;
use wash_up::interactive::RunEvent;
use wash_up::interactive::RunState;

#[test]
fn first_cancel_shuts_down_in_order() {
    let s = run_start();
    assert_eq!(s, RunState::Streaming);
    // The first cancellation aborts the log drain before the child is
    // terminated, so shutdown noise is never printed.
    let (s, a) = run_step(s, RunEvent::CancelRequested);
    assert_eq!(a, RunAction::AbortDrain);
    let (s, a) = run_step(s, RunEvent::DrainAborted);
    assert_eq!(a, RunAction::KillChild);
    let (s, a) = run_step(s, RunEvent::ChildExited);
    assert_eq!(a, RunAction::Finished);
    assert_eq!(s, RunState::Done);
}

#[test]
fn repeated_cancel_warns_and_never_double_kills() {
    let s = run_start();
    let (s, _) = run_step(s, RunEvent::CancelRequested);
    // A second cancellation while the drain is still being aborted only
    // earns a warning and changes nothing.
    let (s, a) = run_step(s, RunEvent::CancelRequested);
    assert_eq!(a, RunAction::WarnRepeatedCancel);
    assert_eq!(s, RunState::AbortingDrain);
    let (s, a) = run_step(s, RunEvent::DrainAborted);
    assert_eq!(a, RunAction::KillChild);
    // And a third one while the child's exit is awaited is ignored the
    // same way: the child is not killed twice.
    let (s, a) = run_step(s, RunEvent::CancelRequested);
    assert_eq!(a, RunAction::WarnRepeatedCancel);
    assert_eq!(s, RunState::KillingChild);
    let (s, a) = run_step(s, RunEvent::ChildExited);
    assert_eq!(a, RunAction::Finished);
    assert_eq!(s, RunState::Done);
}
