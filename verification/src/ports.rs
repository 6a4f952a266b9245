//! The port probe policy. A supplied port must be verified free and is never
//! silently replaced; without a supplied port the dashboard port is chosen by
//! a linear scan over a fixed inclusive range, lowest free port first. The
//! TCP probing itself is the caller's I/O; the decisions live here.

use vstd::prelude::*;

verus! {

use crate::errors::UpError;

/// The first port of the scanned range, and the default dashboard port.
pub const DEFAULT_DASHBOARD_PORT: u16 = 4000;

/// The last port of the scanned range (inclusive).
pub const DASHBOARD_PORT_SCAN_END: u16 = 5000;

/// The decision for a caller-supplied port once it has been probed: a free
/// port is accepted as-is, an occupied one is a fatal error naming the port.
pub fn supplied_port_outcome(port: u16, free: bool) -> (r: Result<u16, UpError>)
    ensures
        free ==> r == Ok::<u16, UpError>(port),
        !free ==> r == Err::<u16, UpError>(UpError::PortOccupied { port }),
{
    if free {
        Ok(port)
    } else {
        Err(UpError::PortOccupied { port })
    }
}

/// The cursor of a linear port scan: the next port to probe and the last
/// port of the range.
#[derive(PartialEq, Eq, Structural, Clone, Copy, Debug)]
pub struct PortScan {
    pub current: u16,
    pub end: u16,
}

/// A scan cursor never points past its range.
pub open spec fn scan_wf(s: PortScan) -> bool {
    s.current <= s.end
}

/// What a probe of the cursor's port decides.
#[derive(PartialEq, Eq, Structural, Clone, Copy, Debug)]
pub enum ScanStep {
    /// The probed port was free: the scan ends with it.
    Found { port: u16 },
    /// The probed port was occupied: probe the next one.
    Continue { next: PortScan },
    /// The whole range was occupied.
    Exhausted,
}

/// The scan policy for one probe outcome.
pub open spec fn scan_next(s: PortScan, free: bool) -> ScanStep {
    if free {
        ScanStep::Found { port: s.current }
    } else if s.current == s.end {
        ScanStep::Exhausted
    } else {
        ScanStep::Continue { next: PortScan { current: (s.current + 1) as u16, end: s.end } }
    }
}

/// Starts a scan over the default dashboard port range.
pub fn scan_start() -> (r: PortScan)
    ensures
        r == (PortScan { current: DEFAULT_DASHBOARD_PORT, end: DASHBOARD_PORT_SCAN_END }),
        scan_wf(r),
{
    PortScan { current: DEFAULT_DASHBOARD_PORT, end: DASHBOARD_PORT_SCAN_END }
}

/// Advances the scan by one probe outcome: a free port wins, an occupied
/// port moves the cursor, and an occupied final port exhausts the range.
pub fn scan_step(s: PortScan, free: bool) -> (r: ScanStep)
    requires
        scan_wf(s),
    ensures
        r == scan_next(s, free),
        r matches ScanStep::Continue { next } ==> scan_wf(next),
{
    if free {
        ScanStep::Found { port: s.current }
    } else if s.current == s.end {
        ScanStep::Exhausted
    } else {
        ScanStep::Continue { next: PortScan { current: s.current + 1, end: s.end } }
    }
}

/// Where a scan driven by the freeness of the probed ports ends up.
pub open spec fn scan_result(s: PortScan, f: spec_fn(u16) -> bool) -> Option<u16>
    decreases s.end - s.current,
    when s.current <= s.end
{
    if f(s.current) {
        Some(s.current)
    } else if s.current == s.end {
        None
    } else {
        scan_result(PortScan { current: (s.current + 1) as u16, end: s.end }, f)
    }
}

/// One probe outcome agrees with the overall scan result: a hit is the
/// result, a miss leaves the result unchanged, and exhaustion means the
/// result is empty.
pub proof fn lemma_step_refines_result(s: PortScan, f: spec_fn(u16) -> bool)
    requires
        scan_wf(s),
    ensures
        scan_next(s, f(s.current)) matches ScanStep::Found { port } ==> scan_result(s, f)
            == Some(port),
        scan_next(s, f(s.current)) matches ScanStep::Continue { next } ==> scan_result(next, f)
            == scan_result(s, f),
        scan_next(s, f(s.current)) is Exhausted ==> scan_result(s, f) is None,
{
}

/// The ceiling of the readiness wait: how many polls a started service
/// gets before the wait times out.
pub const READINESS_WAIT_ATTEMPTS: u32 = 30;

/// The fixed interval between readiness polls, in milliseconds.
pub const READINESS_POLL_INTERVAL_MS: u64 = 1000;

/// The bounded readiness wait: how many poll attempts are left before a
/// started service is given up on.
#[derive(PartialEq, Eq, Structural, Clone, Copy, Debug)]
pub struct ReadyWait {
    pub remaining: u32,
}

/// What one poll of the service's endpoint decides.
#[derive(PartialEq, Eq, Structural, Clone, Copy, Debug)]
pub enum ReadyStep {
    /// The endpoint accepted a connection: the service is ready.
    Ready,
    /// Not yet; poll again after the fixed interval.
    Retry { next: ReadyWait },
    /// The bounded wait elapsed without a successful connection.
    TimedOut,
}

/// The wait policy for one poll outcome: a successful connection means
/// readiness, anything else consumes one attempt, and running out of
/// attempts is a normal, reported timeout — never a crash.
pub open spec fn ready_next(w: ReadyWait, connected: bool) -> ReadyStep {
    if connected {
        ReadyStep::Ready
    } else if w.remaining == 0 {
        ReadyStep::TimedOut
    } else {
        ReadyStep::Retry { next: ReadyWait { remaining: (w.remaining - 1) as u32 } }
    }
}

/// Starts a readiness wait with a fixed number of attempts.
pub fn ready_wait_start(attempts: u32) -> (r: ReadyWait)
    ensures
        r == (ReadyWait { remaining: attempts }),
{
    ReadyWait { remaining: attempts }
}

/// Advances the readiness wait by one poll outcome.
pub fn ready_wait_step(w: ReadyWait, connected: bool) -> (r: ReadyStep)
    ensures
        r == ready_next(w, connected),
{
    if connected {
        ReadyStep::Ready
    } else if w.remaining == 0 {
        ReadyStep::TimedOut
    } else {
        ReadyStep::Retry { next: ReadyWait { remaining: w.remaining - 1 } }
    }
}

/// The wait never times out while attempts remain and never polls past
/// its bound: each miss consumes exactly one attempt.
pub proof fn lemma_ready_wait_bounded(w: ReadyWait, connected: bool)
    ensures
        ready_next(w, connected) is Ready <==> connected,
        ready_next(w, connected) is TimedOut <==> !connected && w.remaining == 0,
        ready_next(w, connected) matches ReadyStep::Retry { next } ==> next.remaining
            == w.remaining - 1,
{
}

/// The scan is a deterministic lowest-free-port policy: when it finds a
/// port, that port is free and every smaller port of the range is occupied;
/// when it finds none, the whole range is occupied.
pub proof fn lemma_scan_finds_lowest(s: PortScan, f: spec_fn(u16) -> bool)
    requires
        scan_wf(s),
    ensures
        scan_result(s, f) matches Some(p) ==> s.current <= p <= s.end && f(p) && forall|q: u16|
            s.current <= q < p ==> !(#[trigger] f(q)),
        scan_result(s, f) is None ==> forall|q: u16| s.current <= q <= s.end ==> !(#[trigger] f(q)),
    decreases s.end - s.current,
{
    if !f(s.current) && s.current < s.end {
        lemma_scan_finds_lowest(PortScan { current: (s.current + 1) as u16, end: s.end }, f);
    }
}

} // verus!
