use wash_up::errors::UpError;
use wash_up::ports::ready_wait_start;
use wash_up::ports::ready_wait_step;
use wash_up::ports::scan_start;
use wash_up::ports::ReadyStep;
use wash_up::ports::ReadyWait;
use wash_up::ports::scan_step;
use wash_up::ports::supplied_port_outcome;
use wash_up::ports::PortScan;
use wash_up::ports::ScanStep;

#[test]
fn supplied_port_must_be_free() {
    assert_eq!(supplied_port_outcome(4000, true).unwrap(), 4000);
    let err = supplied_port_outcome(4000, false).unwrap_err();
    assert!(matches!(err, UpError::PortOccupied { port: 4000 }));
    assert_eq!(
        err.message(),
        "Supplied host port 4000 already has a process listening"
    );
}

#[test]
fn scan_finds_lowest_free_port() {
    // Ports 4000 through 4004 occupied, everything above free: the scan
    // must stop at 4005, the lowest free port.
    let mut state = scan_start();
    assert_eq!(state, PortScan { current: 4000, end: 5000 });
    let mut found = None;
    loop {
        let free = state.current >= 4005;
        match scan_step(state, free) {
            ScanStep::Found { port } => {
                found = Some(port);
                break;
            }
            ScanStep::Continue { next } => state = next,
            ScanStep::Exhausted => break,
        }
    }
    assert_eq!(found, Some(4005));
}

#[test]
fn readiness_wait_is_bounded() {
    // The service answers on the third poll: the wait reports readiness.
    let mut wait = ready_wait_start(5);
    let mut polls = 0;
    let ready = loop {
        polls += 1;
        match ready_wait_step(wait, polls == 3) {
            ReadyStep::Ready => break true,
            ReadyStep::Retry { next } => wait = next,
            ReadyStep::TimedOut => break false,
        }
    };
    assert!(ready);
    assert_eq!(polls, 3);

    // A service that never answers exhausts the bound: a normal, reported
    // timeout after exactly one poll per attempt plus the initial one.
    let mut wait = ready_wait_start(5);
    let mut polls = 0;
    let ready = loop {
        polls += 1;
        match ready_wait_step(wait, false) {
            ReadyStep::Ready => break true,
            ReadyStep::Retry { next } => wait = next,
            ReadyStep::TimedOut => break false,
        }
    };
    assert!(!ready);
    assert_eq!(polls, 6);
    assert_eq!(wait, ReadyWait { remaining: 0 });
}

#[test]
fn exhausted_scan_is_a_distinct_error() {
    // A fully occupied range exhausts the scan; the resulting error is its
    // own variant, not a binary-missing error.
    let mut state = PortScan { current: 4000, end: 4002 };
    let outcome = loop {
        match scan_step(state, false) {
            ScanStep::Found { port } => break Ok(port),
            ScanStep::Continue { next } => state = next,
            ScanStep::Exhausted => break Err(UpError::NoFreePort),
        }
    };
    let err = outcome.unwrap_err();
    assert!(matches!(err, UpError::NoFreePort));
    assert!(!matches!(err, UpError::StartOnlyMissingBinary));
    assert!(!matches!(err, UpError::InstallVerificationFailed));
    assert_eq!(err.message(), "Failed to find open port for host");
}
