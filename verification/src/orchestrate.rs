//! The orchestration controller: the state machine that sequences port
//! selection, broker provisioning and launch, the optional deployment
//! manager, host provisioning and launch, the readiness wait, and the final
//! detached or interactive mode — with rollback of whatever this invocation
//! itself started on a fatal failure, and graceful degradation when only
//! the deployment manager fails. The caller performs each returned action
//! (the probes, downloads, spawns and waits) and feeds the outcome back as
//! the next event; every decision is made here.

use vstd::prelude::*;

verus! {

use vstd::string::StrSliceExecFns;
use vstd::string::StringExecFns;
use crate::config::merged_wasmcloud_opts;
use crate::config::nats_config_of;
use crate::config::nats_params_from_wasmcloud_opts;
use crate::config::resolve_wasmcloud_opts;
use crate::config::NatsClientParams;
use crate::config::NatsConfig;
use crate::config::NatsOpts;
use crate::config::UpCommand;
use crate::config::WadmConfig;
use crate::config::WadmOpts;
use crate::config::WasmcloudOpts;
use crate::config::DEFAULT_NATS_HOST;
use crate::config::DEFAULT_NATS_PORT;
use crate::errors::up_error_message_spec;
use crate::errors::UpError;
use crate::output::detached_output;
use crate::output::detached_payload;
use crate::output::interactive_output;
use crate::output::interactive_payload;
use crate::output::UpOutput;
use crate::paths::host_log_path;
use crate::paths::host_log_path_spec;
use crate::paths::nats_log_path;
use crate::paths::nats_pid_path;
use crate::paths::root_file_spec;
use crate::paths::wadm_log_path;
use crate::paths::wadm_pid_path;
use crate::paths::wasmcloud_binary_path;
use crate::paths::wasmcloud_binary_path_spec;
use crate::paths::wasmcloud_pid_path;
use crate::strutil::dec_digits;
use crate::strutil::u16_to_string;
use crate::strutil::u64_to_string;

/// Which of the two tear-down steps a rollback is waiting on.
#[derive(PartialEq, Eq, Structural, Clone, Copy, Debug)]
pub enum RollbackOp {
    /// The deployment-manager process is being killed.
    Wadm,
    /// The locally started broker is being stopped.
    Nats,
}

/// Where an invocation stands. Rollback is itself a pair of phases so that
/// tear-down failures can be recorded without masking the original error.
pub enum UpPhase {
    /// The dashboard port is being selected (or a supplied one verified).
    SelectingPort,
    /// The first broker connection attempt decides whether to run one.
    ConnectingNats,
    /// The broker binary is being provisioned.
    EnsuringNats,
    /// The authenticated connection to the remote broker is being tried
    /// before the local leaf node starts.
    PreflightingRemote,
    /// The broker process is being spawned.
    StartingNats,
    /// The broker's pid file is being written.
    WritingNatsPid,
    /// The mandatory broker connection (the one the host needs) is tried.
    ConfirmingNats,
    /// A control-plane query decides whether a deployment manager already
    /// serves the lattice.
    CheckingWadm,
    /// The deployment-manager binary is being provisioned (failure here
    /// degrades, it never aborts).
    EnsuringWadm,
    /// The deployment-manager process is being spawned (failure here
    /// degrades, it never aborts).
    StartingWadm,
    /// The host binary is being provisioned.
    EnsuringHost,
    /// Start-only mode: the host binary is being looked up, never fetched.
    FindingHostBinary,
    /// The host process is being spawned.
    StartingHost,
    /// The host's dashboard endpoint is being polled for readiness.
    AwaitingReady,
    /// Detached mode: the host marker file is being written.
    WritingHostMarker,
    /// Interactive mode: the foreground session runs until cancelled.
    RunningInteractive,
    /// The deployment-manager pid file is being removed after the session.
    RemovingWadmPid,
    /// A fatal error occurred; whatever this invocation started is being
    /// torn down before the error is surfaced.
    RollingBack {
        awaiting: RollbackOp,
        stop_nats_next: bool,
        error: UpError,
        rollback_failure: Option<String>,
    },
    /// The invocation is over.
    Done,
}

/// The whole in-memory state of one invocation: the caller's options, what
/// has been decided so far, and which services this invocation started
/// (the sole input of rollback).
pub struct UpState {
    pub detached: bool,
    pub install_dir: String,
    pub nats: NatsOpts,
    pub wadm: WadmOpts,
    pub wasmcloud: WasmcloudOpts,
    /// The selected dashboard port (meaningful once a port was selected).
    pub port: u16,
    /// The provisioned broker binary, once known.
    pub nats_bin: Option<String>,
    /// Whether this invocation started the broker.
    pub nats_started: bool,
    /// Whether this invocation started the deployment manager.
    pub wadm_started: bool,
    /// The degraded-mode warning to surface, if the deployment manager
    /// could not be provisioned or started.
    pub wadm_warning: Option<String>,
    /// The host's log path, once the host launch is prepared.
    pub host_log: Option<String>,
    pub phase: UpPhase,
}

/// What the caller reports back.
pub enum UpEvent {
    /// The port selection finished (its own policy lives in `ports`).
    PortSelected { outcome: Result<u16, UpError> },
    /// A broker connection attempt succeeded, or failed with a message.
    NatsConnect { error: Option<String> },
    /// A binary was provisioned at the reported path, or failed.
    BinaryEnsured { outcome: Result<String, UpError> },
    /// The authenticated preflight to the remote broker succeeded or not.
    RemotePreflight { error: Option<String> },
    /// A process spawn yielded a pid (where the platform reports one), or
    /// failed with a message.
    ProcessSpawned { outcome: Result<Option<u64>, String> },
    /// A pid or marker file write finished.
    FileWritten { error: Option<String> },
    /// Whether a deployment manager already answers on the lattice.
    WadmQueried { running: bool },
    /// Whether the host binary exists at the probed path (start-only mode).
    HostBinaryProbed { exists: bool },
    /// Whether the started host became ready within the bounded wait.
    ReadyWaited { ok: bool },
    /// The interactive session ended (the user cancelled and the host was
    /// reaped).
    InteractiveDone,
    /// The deployment-manager pid file was removed (best effort).
    WadmPidRemoved,
    /// A rollback kill or stop finished.
    Stopped { error: Option<String> },
}

/// What the caller must do next.
pub enum UpAction {
    /// Run the port-selection policy for the dashboard port.
    SelectPort { supplied: Option<u16> },
    /// Attempt a broker connection with these parameters and report back.
    TryNatsConnect { params: NatsClientParams },
    /// Provision the broker binary of `version` under `dir`.
    EnsureNatsBinary { version: String, dir: String },
    /// Attempt an authenticated connection to the remote broker.
    PreflightRemote { url: String, port_str: String, credsfile: String },
    /// Spawn the broker, output redirected to `log`.
    StartNats { bin: String, log: String, config: NatsConfig },
    /// Write `contents` to `path`.
    WriteFile { path: String, contents: String },
    /// Query the lattice for a running deployment manager.
    CheckWadm { host: String, port_str: String, credsfile: Option<String>, lattice: String },
    /// Provision the deployment-manager binary of `version` under `dir`.
    EnsureWadmBinary { version: String, dir: String },
    /// Spawn the deployment manager, output redirected to `log`.
    StartWadm { bin: String, log: String, config: WadmConfig },
    /// Provision the host binary of `version` under `dir`.
    EnsureHostBinary { version: String, dir: String },
    /// Probe whether the host binary exists at `path` (start-only mode).
    ProbeHostBinary { path: String },
    /// Spawn the host: stderr to `log` where one is given (detached mode),
    /// piped to the console otherwise; stdin nulled.
    StartHost { bin: String, log: Option<String> },
    /// Poll `url` until a connection succeeds or the bounded wait elapses.
    WaitReady { url: String, label: String },
    /// Run the interactive foreground session (its own policy lives in
    /// `interactive`).
    RunInteractive { port: u16 },
    /// Remove the deployment-manager pid file.
    RemoveWadmPid { path: String },
    /// Kill the deployment-manager process this invocation started.
    KillWadm,
    /// Stop the broker this invocation started.
    StopNats,
    /// The invocation is over.
    Finish { outcome: UpOutcome },
}

/// How an invocation ended.
pub enum UpOutcome {
    Success { output: UpOutput },
    /// The original error, and the tear-down failure beside it where the
    /// rollback itself also failed (the original error is never masked).
    Failure { error: UpError, rollback_failure: Option<String> },
}

/// A remote broker URL together with a credentials file: the configuration
/// in which a local broker extends remote infrastructure as a leaf node.
pub open spec fn supplied_remote_credentials(n: NatsOpts) -> bool {
    n.nats_remote_url is Some && n.nats_credsfile is Some
}

/// The action is a broker connection attempt with the control-interface
/// parameters of `w` (stock defaults where nothing was supplied).
pub open spec fn connect_action(a: UpAction, w: WasmcloudOpts) -> bool {
    &&& a matches UpAction::TryNatsConnect { params }
    &&& (w.ctl_host matches Some(h) ==> params.host == h)
    &&& (w.ctl_host is None ==> params.host@ == DEFAULT_NATS_HOST@)
    &&& (w.ctl_port matches Some(p) ==> params.port_str@ == dec_digits(p as nat))
    &&& (w.ctl_port is None ==> params.port_str@ == dec_digits(DEFAULT_NATS_PORT as nat))
    &&& params.jwt == w.ctl_jwt
    &&& params.seed == w.ctl_seed
    &&& params.credsfile == w.ctl_credsfile
}

/// The action spawns the broker binary with output to `nats.log` and the
/// broker configuration taken verbatim from the broker options.
pub open spec fn start_nats_action(a: UpAction, bin: String, s: UpState) -> bool {
    &&& a matches UpAction::StartNats { bin: b, log, config }
    &&& b == bin
    &&& log@ == root_file_spec(s.install_dir@, "nats.log"@)
    &&& config == nats_config_of(s.nats)
}

/// Entering rollback for the fatal `error`: the deployment manager is
/// killed first where this invocation started it, then the broker is
/// stopped where this invocation started it, and the error is surfaced.
/// Where nothing was started, the error is surfaced at once.
pub open spec fn rollback_entry(
    s: UpState,
    s2: UpState,
    a: UpAction,
    kill_wadm: bool,
    stop_nats: bool,
    error: UpError,
) -> bool {
    if kill_wadm {
        &&& s2 == (UpState {
            phase: UpPhase::RollingBack {
                awaiting: RollbackOp::Wadm,
                stop_nats_next: stop_nats,
                error,
                rollback_failure: None,
            },
            ..s
        })
        &&& a is KillWadm
    } else if stop_nats {
        &&& s2 == (UpState {
            phase: UpPhase::RollingBack {
                awaiting: RollbackOp::Nats,
                stop_nats_next: false,
                error,
                rollback_failure: None,
            },
            ..s
        })
        &&& a is StopNats
    } else {
        &&& s2 == (UpState { phase: UpPhase::Done, ..s })
        &&& a matches UpAction::Finish {
            outcome: UpOutcome::Failure { error: e2, rollback_failure: None },
        }
        &&& e2 == error
    }
}

/// Everything but the phase is unchanged.
pub open spec fn frame_base(s: UpState, s2: UpState) -> bool {
    &&& s2.detached == s.detached
    &&& s2.install_dir == s.install_dir
    &&& s2.nats == s.nats
    &&& s2.wadm == s.wadm
    &&& s2.wasmcloud == s.wasmcloud
    &&& s2.port == s.port
    &&& s2.nats_bin == s.nats_bin
    &&& s2.nats_started == s.nats_started
    &&& s2.wadm_started == s.wadm_started
    &&& s2.wadm_warning == s.wadm_warning
    &&& s2.host_log == s.host_log
}

/// Everything but the phase and the deployment-manager bookkeeping is
/// unchanged.
pub open spec fn host_stage_frame(s: UpState, s2: UpState) -> bool {
    &&& s2.detached == s.detached
    &&& s2.install_dir == s.install_dir
    &&& s2.nats == s.nats
    &&& s2.wadm == s.wadm
    &&& s2.wasmcloud == s.wasmcloud
    &&& s2.port == s.port
    &&& s2.nats_bin == s.nats_bin
    &&& s2.nats_started == s.nats_started
    &&& s2.host_log == s.host_log
}

/// Moving on to the host stage: provision the host binary, or — in
/// start-only mode — only look it up. `wadm_started` records whether the
/// deployment manager was started, `warning` the degraded-mode warning to
/// surface (`None` leaves the recorded warning untouched).
pub open spec fn host_stage_rel(
    s: UpState,
    s2: UpState,
    a: UpAction,
    wadm_started: bool,
    warning: Option<Seq<char>>,
) -> bool {
    &&& host_stage_frame(s, s2)
    &&& s2.wadm_started == wadm_started
    &&& (match warning {
        None => s2.wadm_warning == s.wadm_warning,
        Some(wv) => s2.wadm_warning matches Some(w) && w@ == wv,
    })
    &&& if !s.wasmcloud.start_only {
        &&& s2.phase is EnsuringHost
        &&& a matches UpAction::EnsureHostBinary { version, dir }
        &&& version == s.wasmcloud.wasmcloud_version
        &&& dir == s.install_dir
    } else {
        &&& s2.phase is FindingHostBinary
        &&& a matches UpAction::ProbeHostBinary { path }
        &&& path@ == wasmcloud_binary_path_spec(s.install_dir@, s.wasmcloud.wasmcloud_version@)
    }
}

/// Everything but the phase and the host log is unchanged.
pub open spec fn start_host_frame(s: UpState, s2: UpState) -> bool {
    &&& s2.detached == s.detached
    &&& s2.install_dir == s.install_dir
    &&& s2.nats == s.nats
    &&& s2.wadm == s.wadm
    &&& s2.wasmcloud == s.wasmcloud
    &&& s2.port == s.port
    &&& s2.nats_bin == s.nats_bin
    &&& s2.nats_started == s.nats_started
    &&& s2.wadm_started == s.wadm_started
    &&& s2.wadm_warning == s.wadm_warning
}

/// Launching the host: the log path is fixed (scoped by the chosen port),
/// and stderr goes to that log file in detached mode or is piped to the
/// console in interactive mode.
pub open spec fn start_host_common(s: UpState, s2: UpState, a: UpAction) -> bool {
    &&& start_host_frame(s, s2)
    &&& s2.phase is StartingHost
    &&& (s2.host_log matches Some(hl) && hl@ == host_log_path_spec(s.install_dir@, s.port))
    &&& a matches UpAction::StartHost { log, .. }
    &&& (s.detached ==> (log matches Some(l) && l@ == host_log_path_spec(s.install_dir@, s.port)))
    &&& (!s.detached ==> log is None)
}

/// A readiness-timeout error for the host's dashboard, naming the log path
/// to inspect.
pub open spec fn washboard_timeout(err: UpError, s: UpState) -> bool {
    &&& err matches UpError::ReadinessTimeout { label, log_path }
    &&& label@ == "Washboard"@
    &&& (s.host_log matches Some(hl) && log_path == hl)
}

/// Which events a phase can take.
pub open spec fn up_expects(s: UpState, e: UpEvent) -> bool {
    match s.phase {
        UpPhase::SelectingPort => e matches UpEvent::PortSelected { .. },
        UpPhase::ConnectingNats => e matches UpEvent::NatsConnect { .. },
        UpPhase::EnsuringNats => e matches UpEvent::BinaryEnsured { .. },
        UpPhase::PreflightingRemote => e matches UpEvent::RemotePreflight { .. },
        UpPhase::StartingNats => e matches UpEvent::ProcessSpawned { .. },
        UpPhase::WritingNatsPid => e matches UpEvent::FileWritten { .. },
        UpPhase::ConfirmingNats => e matches UpEvent::NatsConnect { .. },
        UpPhase::CheckingWadm => e matches UpEvent::WadmQueried { .. },
        UpPhase::EnsuringWadm => e matches UpEvent::BinaryEnsured { .. },
        UpPhase::StartingWadm => e matches UpEvent::ProcessSpawned { .. },
        UpPhase::EnsuringHost => e matches UpEvent::BinaryEnsured { .. },
        UpPhase::FindingHostBinary => e matches UpEvent::HostBinaryProbed { .. },
        UpPhase::StartingHost => e matches UpEvent::ProcessSpawned { .. },
        UpPhase::AwaitingReady => e matches UpEvent::ReadyWaited { .. },
        UpPhase::WritingHostMarker => e matches UpEvent::FileWritten { .. },
        UpPhase::RunningInteractive => e is InteractiveDone,
        UpPhase::RemovingWadmPid => e is WadmPidRemoved,
        UpPhase::RollingBack { .. } => e matches UpEvent::Stopped { .. },
        UpPhase::Done => false,
    }
}

/// Bookkeeping every reachable state satisfies.
pub open spec fn up_wf(s: UpState) -> bool {
    &&& (s.phase is PreflightingRemote ==> s.nats_bin is Some && supplied_remote_credentials(
        s.nats,
    ))
    &&& (s.phase is StartingNats ==> s.nats_bin is Some)
    &&& (s.phase is StartingHost ==> s.host_log is Some)
    &&& (s.phase is AwaitingReady ==> s.host_log is Some)
    &&& (s.phase is WritingHostMarker ==> s.host_log is Some)
}

/// The transition relation of the controller: what one reported event makes
/// of the state, and which action follows. The six-stage order of the
/// startup sequence, the fatal-versus-degraded policy, and the rollback
/// policy (tear down only what this invocation itself started) are all
/// pinned here.
pub open spec fn up_step_rel(s: UpState, e: UpEvent, s2: UpState, a: UpAction) -> bool {
    match (s.phase, e) {
        (UpPhase::SelectingPort, UpEvent::PortSelected { outcome }) => match outcome {
            Ok(p) => {
                let merged = merged_wasmcloud_opts(s.wasmcloud, s.nats, p);
                &&& s2 == (UpState {
                    phase: UpPhase::ConnectingNats,
                    port: p,
                    wasmcloud: merged,
                    ..s
                })
                &&& connect_action(a, merged)
            },
            Err(err) => {
                &&& s2 == (UpState { phase: UpPhase::Done, ..s })
                &&& a matches UpAction::Finish {
                    outcome: UpOutcome::Failure { error, rollback_failure: None },
                }
                &&& error == err
            },
        },
        (UpPhase::ConnectingNats, UpEvent::NatsConnect { error }) => {
            let should_run = !s.nats.connect_only && !(error is None);
            if should_run || supplied_remote_credentials(s.nats) {
                &&& s2 == (UpState { phase: UpPhase::EnsuringNats, ..s })
                &&& a matches UpAction::EnsureNatsBinary { version, dir }
                &&& version == s.nats.nats_version
                &&& dir == s.install_dir
            } else {
                // A reachable broker that the caller did not ask to replace:
                // skip provisioning and treat it as ready.
                &&& s2 == (UpState { phase: UpPhase::ConfirmingNats, ..s })
                &&& connect_action(a, s.wasmcloud)
            }
        },
        (UpPhase::EnsuringNats, UpEvent::BinaryEnsured { outcome }) => match outcome {
            Ok(bin) => {
                if supplied_remote_credentials(s.nats) {
                    &&& s2 == (UpState {
                        phase: UpPhase::PreflightingRemote,
                        nats_bin: Some(bin),
                        ..s
                    })
                    &&& a matches UpAction::PreflightRemote { url, port_str, credsfile }
                    &&& Some(url) == s.nats.nats_remote_url
                    &&& port_str@ == dec_digits(s.nats.nats_port as nat)
                    &&& Some(credsfile) == s.nats.nats_credsfile
                } else {
                    &&& s2 == (UpState { phase: UpPhase::StartingNats, nats_bin: Some(bin), ..s })
                    &&& start_nats_action(a, bin, s)
                }
            },
            Err(err) => {
                &&& s2 == (UpState { phase: UpPhase::Done, ..s })
                &&& a matches UpAction::Finish {
                    outcome: UpOutcome::Failure { error, rollback_failure: None },
                }
                &&& error == err
            },
        },
        (UpPhase::PreflightingRemote, UpEvent::RemotePreflight { error }) => match error {
            None => {
                &&& s2 == (UpState { phase: UpPhase::StartingNats, ..s })
                &&& (s.nats_bin matches Some(bin) && start_nats_action(a, bin, s))
            },
            Some(msg) => {
                // The preflight failed: abort before any process is spawned.
                &&& s2 == (UpState { phase: UpPhase::Done, ..s })
                &&& a == (UpAction::Finish {
                    outcome: UpOutcome::Failure {
                        error: UpError::RemoteConnectFailed { message: msg },
                        rollback_failure: None,
                    },
                })
            },
        },
        (UpPhase::StartingNats, UpEvent::ProcessSpawned { outcome }) => match outcome {
            Ok(pid_opt) => match pid_opt {
                Some(pid) => {
                    &&& s2 == (UpState {
                        phase: UpPhase::WritingNatsPid,
                        nats_started: true,
                        ..s
                    })
                    &&& a matches UpAction::WriteFile { path, contents }
                    &&& path@ == root_file_spec(s.install_dir@, "nats.pid"@)
                    &&& contents@ == dec_digits(pid as nat)
                },
                None => {
                    &&& s2 == (UpState {
                        phase: UpPhase::ConfirmingNats,
                        nats_started: true,
                        ..s
                    })
                    &&& connect_action(a, s.wasmcloud)
                },
            },
            Err(msg) => {
                &&& s2 == (UpState { phase: UpPhase::Done, ..s })
                &&& a == (UpAction::Finish {
                    outcome: UpOutcome::Failure {
                        error: UpError::SpawnFailed { message: msg },
                        rollback_failure: None,
                    },
                })
            },
        },
        (UpPhase::WritingNatsPid, UpEvent::FileWritten { error }) => match error {
            None => {
                &&& s2 == (UpState { phase: UpPhase::ConfirmingNats, ..s })
                &&& connect_action(a, s.wasmcloud)
            },
            Some(msg) => rollback_entry(
                s,
                s2,
                a,
                false,
                s.nats_started,
                UpError::FileWriteFailed { message: msg },
            ),
        },
        (UpPhase::ConfirmingNats, UpEvent::NatsConnect { error }) => match error {
            None => {
                if s.wadm.disable_wadm {
                    host_stage_rel(s, s2, a, s.wadm_started, None)
                } else {
                    &&& s2 == (UpState { phase: UpPhase::CheckingWadm, ..s })
                    &&& a matches UpAction::CheckWadm { host, port_str, credsfile, lattice }
                    &&& host == s.nats.nats_host
                    &&& port_str@ == dec_digits(s.nats.nats_port as nat)
                    &&& credsfile == s.nats.nats_credsfile
                    &&& lattice == s.wasmcloud.lattice_prefix
                }
            },
            Some(msg) => rollback_entry(
                s,
                s2,
                a,
                false,
                s.nats_started,
                UpError::BrokerConnectFailed { message: msg },
            ),
        },
        (UpPhase::CheckingWadm, UpEvent::WadmQueried { running }) => {
            if running {
                host_stage_rel(s, s2, a, s.wadm_started, None)
            } else {
                &&& s2 == (UpState { phase: UpPhase::EnsuringWadm, ..s })
                &&& a matches UpAction::EnsureWadmBinary { version, dir }
                &&& version == s.wadm.wadm_version
                &&& dir == s.install_dir
            }
        },
        (UpPhase::EnsuringWadm, UpEvent::BinaryEnsured { outcome }) => match outcome {
            Ok(bin) => {
                &&& s2 == (UpState { phase: UpPhase::StartingWadm, ..s })
                &&& a matches UpAction::StartWadm { bin: b, log, config }
                &&& b == bin
                &&& log@ == root_file_spec(s.install_dir@, "wadm.log"@)
                &&& config.structured_logging == s.wasmcloud.enable_structured_logging
                &&& config.js_domain == s.nats.nats_js_domain
                &&& config.nats_server_url@ == s.nats.nats_host@ + ":"@ + dec_digits(
                    s.nats.nats_port as nat,
                )
                &&& config.nats_credsfile == s.nats.nats_credsfile
            },
            Err(err) => host_stage_rel(
                s,
                s2,
                a,
                false,
                Some("Couldn't download wadm: "@ + up_error_message_spec(err)),
            ),
        },
        (UpPhase::StartingWadm, UpEvent::ProcessSpawned { outcome }) => match outcome {
            Ok(_) => host_stage_rel(s, s2, a, true, None),
            Err(msg) => host_stage_rel(s, s2, a, false, Some("Couldn't start wadm: "@ + msg@)),
        },
        (UpPhase::EnsuringHost, UpEvent::BinaryEnsured { outcome }) => match outcome {
            Ok(bin) => {
                &&& start_host_common(s, s2, a)
                &&& (a matches UpAction::StartHost { bin: b, .. } && b == bin)
            },
            Err(err) => rollback_entry(s, s2, a, s.wadm_started, s.nats_started, err),
        },
        (UpPhase::FindingHostBinary, UpEvent::HostBinaryProbed { exists }) => {
            if exists {
                &&& start_host_common(s, s2, a)
                &&& (a matches UpAction::StartHost { bin, .. } && bin@ == wasmcloud_binary_path_spec(
                    s.install_dir@,
                    s.wasmcloud.wasmcloud_version@,
                ))
            } else {
                rollback_entry(s, s2, a, false, s.nats_started, UpError::StartOnlyMissingBinary)
            }
        },
        (UpPhase::StartingHost, UpEvent::ProcessSpawned { outcome }) => match outcome {
            Ok(_) => {
                &&& s2 == (UpState { phase: UpPhase::AwaitingReady, ..s })
                &&& a matches UpAction::WaitReady { url, label }
                &&& url@ == "127.0.0.1:"@ + dec_digits(s.port as nat)
                &&& label@ == "Washboard"@
            },
            Err(msg) => rollback_entry(
                s,
                s2,
                a,
                s.wadm_started,
                s.nats_started,
                UpError::SpawnFailed { message: msg },
            ),
        },
        (UpPhase::AwaitingReady, UpEvent::ReadyWaited { ok }) => {
            if ok {
                if s.detached {
                    &&& s2 == (UpState { phase: UpPhase::WritingHostMarker, ..s })
                    &&& a matches UpAction::WriteFile { path, contents }
                    &&& path@ == root_file_spec(s.install_dir@, "wasmcloud.pid"@)
                    &&& contents == s.wasmcloud.wasmcloud_version
                } else {
                    &&& s2 == (UpState { phase: UpPhase::RunningInteractive, ..s })
                    &&& a == (UpAction::RunInteractive { port: s.port })
                }
            } else {
                // The host never became ready: roll back the broker where
                // this invocation started it, and name the log to inspect.
                if s.nats_started {
                    &&& frame_base(s, s2)
                    &&& s2.phase matches UpPhase::RollingBack {
                        awaiting: RollbackOp::Nats,
                        stop_nats_next: false,
                        error,
                        rollback_failure: None,
                    }
                    &&& washboard_timeout(error, s)
                    &&& a is StopNats
                } else {
                    &&& frame_base(s, s2)
                    &&& s2.phase is Done
                    &&& a matches UpAction::Finish {
                        outcome: UpOutcome::Failure { error, rollback_failure: None },
                    }
                    &&& washboard_timeout(error, s)
                }
            }
        },
        (UpPhase::WritingHostMarker, UpEvent::FileWritten { error }) => match error {
            None => {
                &&& s2 == (UpState { phase: UpPhase::Done, ..s })
                &&& a matches UpAction::Finish { outcome: UpOutcome::Success { output } }
                &&& (s.host_log matches Some(hl) && detached_payload(
                    output,
                    s.port,
                    hl@,
                    s.nats.nats_host@,
                    s.nats.nats_port,
                ))
            },
            Some(msg) => {
                &&& s2 == (UpState { phase: UpPhase::Done, ..s })
                &&& a == (UpAction::Finish {
                    outcome: UpOutcome::Failure {
                        error: UpError::FileWriteFailed { message: msg },
                        rollback_failure: None,
                    },
                })
            },
        },
        (UpPhase::RunningInteractive, UpEvent::InteractiveDone) => {
            &&& s2 == (UpState { phase: UpPhase::RemovingWadmPid, ..s })
            &&& a matches UpAction::RemoveWadmPid { path }
            &&& path@ == root_file_spec(s.install_dir@, "wadm.pid"@)
        },
        (UpPhase::RemovingWadmPid, UpEvent::WadmPidRemoved) => {
            &&& s2 == (UpState { phase: UpPhase::Done, ..s })
            &&& a matches UpAction::Finish { outcome: UpOutcome::Success { output } }
            &&& interactive_payload(output)
        },
        (
            UpPhase::RollingBack { awaiting, stop_nats_next, error, rollback_failure },
            UpEvent::Stopped { error: kerr },
        ) => match awaiting {
            RollbackOp::Wadm => {
                if stop_nats_next {
                    &&& s2 == (UpState {
                        phase: UpPhase::RollingBack {
                            awaiting: RollbackOp::Nats,
                            stop_nats_next: false,
                            error,
                            rollback_failure: kerr,
                        },
                        ..s
                    })
                    &&& a is StopNats
                } else {
                    &&& s2 == (UpState { phase: UpPhase::Done, ..s })
                    &&& a matches UpAction::Finish {
                        outcome: UpOutcome::Failure { error: e2, rollback_failure: rf },
                    }
                    &&& e2 == error
                    &&& rf == kerr
                }
            },
            RollbackOp::Nats => {
                &&& s2 == (UpState { phase: UpPhase::Done, ..s })
                &&& a matches UpAction::Finish {
                    outcome: UpOutcome::Failure { error: e2, rollback_failure: rf },
                }
                &&& e2 == error
                &&& rf == (if rollback_failure is Some {
                    rollback_failure
                } else {
                    kerr
                })
            },
        },
        _ => false,
    }
}

/// Moves an invocation on to the host stage, recording the deployment
/// manager's fate: provision the host binary, or only look it up in
/// start-only mode.
fn host_stage_step(
    detached: bool,
    install_dir: String,
    nats: NatsOpts,
    wadm: WadmOpts,
    wasmcloud: WasmcloudOpts,
    port: u16,
    nats_bin: Option<String>,
    nats_started: bool,
    wadm_started: bool,
    wadm_warning: Option<String>,
    host_log: Option<String>,
) -> (r: (UpState, UpAction))
    ensures
        r.0.detached == detached && r.0.install_dir == install_dir && r.0.nats == nats
            && r.0.wadm == wadm && r.0.wasmcloud == wasmcloud && r.0.port == port && r.0.nats_bin
            == nats_bin && r.0.nats_started == nats_started && r.0.wadm_started == wadm_started
            && r.0.wadm_warning == wadm_warning && r.0.host_log == host_log,
        !wasmcloud.start_only ==> r.0.phase is EnsuringHost && (r.1 matches
            UpAction::EnsureHostBinary { version, dir } && version == wasmcloud.wasmcloud_version
            && dir == install_dir),
        wasmcloud.start_only ==> r.0.phase is FindingHostBinary && (r.1 matches
            UpAction::ProbeHostBinary { path } && path@ == wasmcloud_binary_path_spec(
            install_dir@,
            wasmcloud.wasmcloud_version@,
        )),
{
    let action = if !wasmcloud.start_only {
        UpAction::EnsureHostBinary {
            version: wasmcloud.wasmcloud_version.clone(),
            dir: install_dir.clone(),
        }
    } else {
        UpAction::ProbeHostBinary {
            path: wasmcloud_binary_path(install_dir.as_str(), wasmcloud.wasmcloud_version.as_str()),
        }
    };
    let phase = if !wasmcloud.start_only {
        UpPhase::EnsuringHost
    } else {
        UpPhase::FindingHostBinary
    };
    (
        UpState {
            detached,
            install_dir,
            nats,
            wadm,
            wasmcloud,
            port,
            nats_bin,
            nats_started,
            wadm_started,
            wadm_warning,
            host_log,
            phase,
        },
        action,
    )
}

/// Enters rollback for a fatal error: the deployment manager is killed
/// first where this invocation started it, then the broker is stopped
/// where this invocation started it; otherwise the error is surfaced at
/// once.
fn rollback_step(
    detached: bool,
    install_dir: String,
    nats: NatsOpts,
    wadm: WadmOpts,
    wasmcloud: WasmcloudOpts,
    port: u16,
    nats_bin: Option<String>,
    nats_started: bool,
    wadm_started: bool,
    wadm_warning: Option<String>,
    host_log: Option<String>,
    kill_wadm: bool,
    stop_nats: bool,
    error: UpError,
) -> (r: (UpState, UpAction))
    ensures
        r.0.detached == detached && r.0.install_dir == install_dir && r.0.nats == nats
            && r.0.wadm == wadm && r.0.wasmcloud == wasmcloud && r.0.port == port && r.0.nats_bin
            == nats_bin && r.0.nats_started == nats_started && r.0.wadm_started == wadm_started
            && r.0.wadm_warning == wadm_warning && r.0.host_log == host_log,
        kill_wadm ==> r.0.phase == (UpPhase::RollingBack {
            awaiting: RollbackOp::Wadm,
            stop_nats_next: stop_nats,
            error,
            rollback_failure: None,
        }) && r.1 is KillWadm,
        !kill_wadm && stop_nats ==> r.0.phase == (UpPhase::RollingBack {
            awaiting: RollbackOp::Nats,
            stop_nats_next: false,
            error,
            rollback_failure: None,
        }) && r.1 is StopNats,
        !kill_wadm && !stop_nats ==> r.0.phase is Done && (r.1 matches UpAction::Finish {
            outcome: UpOutcome::Failure { error: e2, rollback_failure: None },
        } && e2 == error),
{
    let (phase, action) = if kill_wadm {
        (
            UpPhase::RollingBack {
                awaiting: RollbackOp::Wadm,
                stop_nats_next: stop_nats,
                error,
                rollback_failure: None,
            },
            UpAction::KillWadm,
        )
    } else if stop_nats {
        (
            UpPhase::RollingBack {
                awaiting: RollbackOp::Nats,
                stop_nats_next: false,
                error,
                rollback_failure: None,
            },
            UpAction::StopNats,
        )
    } else {
        (
            UpPhase::Done,
            UpAction::Finish {
                outcome: UpOutcome::Failure { error, rollback_failure: None },
            },
        )
    };
    (
        UpState {
            detached,
            install_dir,
            nats,
            wadm,
            wasmcloud,
            port,
            nats_bin,
            nats_started,
            wadm_started,
            wadm_warning,
            host_log,
            phase,
        },
        action,
    )
}

/// Begins an invocation: the first action selects the dashboard port
/// (verifying a supplied one rather than silently replacing it).
pub fn up_start(cmd: UpCommand, install_dir: String) -> (r: (UpState, UpAction))
    ensures
        r.0 == (UpState {
            detached: cmd.detached,
            install_dir: install_dir,
            nats: cmd.nats_opts,
            wadm: cmd.wadm_opts,
            wasmcloud: cmd.wasmcloud_opts,
            port: 0,
            nats_bin: None,
            nats_started: false,
            wadm_started: false,
            wadm_warning: None,
            host_log: None,
            phase: UpPhase::SelectingPort,
        }),
        r.1 == (UpAction::SelectPort { supplied: cmd.wasmcloud_opts.dashboard_port }),
        up_wf(r.0),
{
    let supplied = cmd.wasmcloud_opts.dashboard_port;
    let state = UpState {
        detached: cmd.detached,
        install_dir,
        nats: cmd.nats_opts,
        wadm: cmd.wadm_opts,
        wasmcloud: cmd.wasmcloud_opts,
        port: 0,
        nats_bin: None,
        nats_started: false,
        wadm_started: false,
        wadm_warning: None,
        host_log: None,
        phase: UpPhase::SelectingPort,
    };
    (state, UpAction::SelectPort { supplied })
}

/// Advances the controller by one reported event.
#[verifier::rlimit(60)]
pub fn up_step(s: UpState, e: UpEvent) -> (r: (UpState, UpAction))
    requires
        up_expects(s, e),
        up_wf(s),
    ensures
        up_step_rel(s, e, r.0, r.1),
        up_wf(r.0),
{
    let UpState {
        detached,
        install_dir,
        nats,
        wadm,
        wasmcloud,
        port,
        nats_bin,
        nats_started,
        wadm_started,
        wadm_warning,
        host_log,
        phase,
    } = s;
    match (phase, e) {
        (UpPhase::SelectingPort, UpEvent::PortSelected { outcome }) => match outcome {
            Ok(p) => {
                let merged = resolve_wasmcloud_opts(wasmcloud, &nats, p);
                let params = nats_params_from_wasmcloud_opts(&merged);
                (
                    UpState {
                        detached,
                        install_dir,
                        nats,
                        wadm,
                        wasmcloud: merged,
                        port: p,
                        nats_bin,
                        nats_started,
                        wadm_started,
                        wadm_warning,
                        host_log,
                        phase: UpPhase::ConnectingNats,
                    },
                    UpAction::TryNatsConnect { params },
                )
            },
            Err(err) => (
                UpState {
                    detached,
                    install_dir,
                    nats,
                    wadm,
                    wasmcloud,
                    port,
                    nats_bin,
                    nats_started,
                    wadm_started,
                    wadm_warning,
                    host_log,
                    phase: UpPhase::Done,
                },
                UpAction::Finish {
                    outcome: UpOutcome::Failure { error: err, rollback_failure: None },
                },
            ),
        },
        (UpPhase::ConnectingNats, UpEvent::NatsConnect { error }) => {
            let should_run = !nats.connect_only && !error.is_none();
            let remote = nats.nats_remote_url.is_some() && nats.nats_credsfile.is_some();
            if should_run || remote {
                let version = nats.nats_version.clone();
                let dir = install_dir.clone();
                (
                    UpState {
                        detached,
                        install_dir,
                        nats,
                        wadm,
                        wasmcloud,
                        port,
                        nats_bin,
                        nats_started,
                        wadm_started,
                        wadm_warning,
                        host_log,
                        phase: UpPhase::EnsuringNats,
                    },
                    UpAction::EnsureNatsBinary { version, dir },
                )
            } else {
                let params = nats_params_from_wasmcloud_opts(&wasmcloud);
                (
                    UpState {
                        detached,
                        install_dir,
                        nats,
                        wadm,
                        wasmcloud,
                        port,
                        nats_bin,
                        nats_started,
                        wadm_started,
                        wadm_warning,
                        host_log,
                        phase: UpPhase::ConfirmingNats,
                    },
                    UpAction::TryNatsConnect { params },
                )
            }
        },
        (UpPhase::EnsuringNats, UpEvent::BinaryEnsured { outcome }) => match outcome {
            Ok(bin) => match (&nats.nats_remote_url, &nats.nats_credsfile) {
                (Some(u), Some(c)) => {
                    let url = u.clone();
                    let credsfile = c.clone();
                    let port_str = u16_to_string(nats.nats_port);
                    (
                        UpState {
                            detached,
                            install_dir,
                            nats,
                            wadm,
                            wasmcloud,
                            port,
                            nats_bin: Some(bin),
                            nats_started,
                            wadm_started,
                            wadm_warning,
                            host_log,
                            phase: UpPhase::PreflightingRemote,
                        },
                        UpAction::PreflightRemote { url, port_str, credsfile },
                    )
                },
                _ => {
                    let log = nats_log_path(install_dir.as_str());
                    let config = NatsConfig::from(nats.clone());
                    let b2 = bin.clone();
                    (
                        UpState {
                            detached,
                            install_dir,
                            nats,
                            wadm,
                            wasmcloud,
                            port,
                            nats_bin: Some(bin),
                            nats_started,
                            wadm_started,
                            wadm_warning,
                            host_log,
                            phase: UpPhase::StartingNats,
                        },
                        UpAction::StartNats { bin: b2, log, config },
                    )
                },
            },
            Err(err) => (
                UpState {
                    detached,
                    install_dir,
                    nats,
                    wadm,
                    wasmcloud,
                    port,
                    nats_bin,
                    nats_started,
                    wadm_started,
                    wadm_warning,
                    host_log,
                    phase: UpPhase::Done,
                },
                UpAction::Finish {
                    outcome: UpOutcome::Failure { error: err, rollback_failure: None },
                },
            ),
        },
        (UpPhase::PreflightingRemote, UpEvent::RemotePreflight { error }) => match error {
            None => {
                let bin = match &nats_bin {
                    Some(b) => b.clone(),
                    None => vstd::pervasive::unreached(),
                };
                let log = nats_log_path(install_dir.as_str());
                let config = NatsConfig::from(nats.clone());
                (
                    UpState {
                        detached,
                        install_dir,
                        nats,
                        wadm,
                        wasmcloud,
                        port,
                        nats_bin,
                        nats_started,
                        wadm_started,
                        wadm_warning,
                        host_log,
                        phase: UpPhase::StartingNats,
                    },
                    UpAction::StartNats { bin, log, config },
                )
            },
            Some(msg) => (
                UpState {
                    detached,
                    install_dir,
                    nats,
                    wadm,
                    wasmcloud,
                    port,
                    nats_bin,
                    nats_started,
                    wadm_started,
                    wadm_warning,
                    host_log,
                    phase: UpPhase::Done,
                },
                UpAction::Finish {
                    outcome: UpOutcome::Failure {
                        error: UpError::RemoteConnectFailed { message: msg },
                        rollback_failure: None,
                    },
                },
            ),
        },
        (UpPhase::StartingNats, UpEvent::ProcessSpawned { outcome }) => match outcome {
            Ok(Some(pid)) => {
                let path = nats_pid_path(install_dir.as_str());
                let contents = u64_to_string(pid);
                (
                    UpState {
                        detached,
                        install_dir,
                        nats,
                        wadm,
                        wasmcloud,
                        port,
                        nats_bin,
                        nats_started: true,
                        wadm_started,
                        wadm_warning,
                        host_log,
                        phase: UpPhase::WritingNatsPid,
                    },
                    UpAction::WriteFile { path, contents },
                )
            },
            Ok(None) => {
                let params = nats_params_from_wasmcloud_opts(&wasmcloud);
                (
                    UpState {
                        detached,
                        install_dir,
                        nats,
                        wadm,
                        wasmcloud,
                        port,
                        nats_bin,
                        nats_started: true,
                        wadm_started,
                        wadm_warning,
                        host_log,
                        phase: UpPhase::ConfirmingNats,
                    },
                    UpAction::TryNatsConnect { params },
                )
            },
            Err(msg) => (
                UpState {
                    detached,
                    install_dir,
                    nats,
                    wadm,
                    wasmcloud,
                    port,
                    nats_bin,
                    nats_started,
                    wadm_started,
                    wadm_warning,
                    host_log,
                    phase: UpPhase::Done,
                },
                UpAction::Finish {
                    outcome: UpOutcome::Failure {
                        error: UpError::SpawnFailed { message: msg },
                        rollback_failure: None,
                    },
                },
            ),
        },
        (UpPhase::WritingNatsPid, UpEvent::FileWritten { error }) => match error {
            None => {
                let params = nats_params_from_wasmcloud_opts(&wasmcloud);
                (
                    UpState {
                        detached,
                        install_dir,
                        nats,
                        wadm,
                        wasmcloud,
                        port,
                        nats_bin,
                        nats_started,
                        wadm_started,
                        wadm_warning,
                        host_log,
                        phase: UpPhase::ConfirmingNats,
                    },
                    UpAction::TryNatsConnect { params },
                )
            },
            Some(msg) => rollback_step(
                detached,
                install_dir,
                nats,
                wadm,
                wasmcloud,
                port,
                nats_bin,
                nats_started,
                wadm_started,
                wadm_warning,
                host_log,
                false,
                nats_started,
                UpError::FileWriteFailed { message: msg },
            ),
        },
        (UpPhase::ConfirmingNats, UpEvent::NatsConnect { error }) => match error {
            None => {
                if wadm.disable_wadm {
                    host_stage_step(
                        detached,
                        install_dir,
                        nats,
                        wadm,
                        wasmcloud,
                        port,
                        nats_bin,
                        nats_started,
                        wadm_started,
                        wadm_warning,
                        host_log,
                    )
                } else {
                    let host = nats.nats_host.clone();
                    let port_str = u16_to_string(nats.nats_port);
                    let credsfile = nats.nats_credsfile.clone();
                    let lattice = wasmcloud.lattice_prefix.clone();
                    (
                        UpState {
                            detached,
                            install_dir,
                            nats,
                            wadm,
                            wasmcloud,
                            port,
                            nats_bin,
                            nats_started,
                            wadm_started,
                            wadm_warning,
                            host_log,
                            phase: UpPhase::CheckingWadm,
                        },
                        UpAction::CheckWadm { host, port_str, credsfile, lattice },
                    )
                }
            },
            Some(msg) => rollback_step(
                detached,
                install_dir,
                nats,
                wadm,
                wasmcloud,
                port,
                nats_bin,
                nats_started,
                wadm_started,
                wadm_warning,
                host_log,
                false,
                nats_started,
                UpError::BrokerConnectFailed { message: msg },
            ),
        },
        (UpPhase::CheckingWadm, UpEvent::WadmQueried { running }) => {
            if running {
                host_stage_step(
                    detached,
                    install_dir,
                    nats,
                    wadm,
                    wasmcloud,
                    port,
                    nats_bin,
                    nats_started,
                    wadm_started,
                    wadm_warning,
                    host_log,
                )
            } else {
                let version = wadm.wadm_version.clone();
                let dir = install_dir.clone();
                (
                    UpState {
                        detached,
                        install_dir,
                        nats,
                        wadm,
                        wasmcloud,
                        port,
                        nats_bin,
                        nats_started,
                        wadm_started,
                        wadm_warning,
                        host_log,
                        phase: UpPhase::EnsuringWadm,
                    },
                    UpAction::EnsureWadmBinary { version, dir },
                )
            }
        },
        (UpPhase::EnsuringWadm, UpEvent::BinaryEnsured { outcome }) => match outcome {
            Ok(bin) => {
                let log = wadm_log_path(install_dir.as_str());
                let mut nats_server_url = nats.nats_host.clone();
                nats_server_url.append(":");
                let ps = u16_to_string(nats.nats_port);
                nats_server_url.append(ps.as_str());
                let config = WadmConfig {
                    structured_logging: wasmcloud.enable_structured_logging,
                    js_domain: nats.nats_js_domain.clone(),
                    nats_server_url,
                    nats_credsfile: nats.nats_credsfile.clone(),
                };
                (
                    UpState {
                        detached,
                        install_dir,
                        nats,
                        wadm,
                        wasmcloud,
                        port,
                        nats_bin,
                        nats_started,
                        wadm_started,
                        wadm_warning,
                        host_log,
                        phase: UpPhase::StartingWadm,
                    },
                    UpAction::StartWadm { bin, log, config },
                )
            },
            Err(err) => {
                let mut warning = "Couldn't download wadm: ".to_owned();
                let msg = err.message();
                warning.append(msg.as_str());
                host_stage_step(
                    detached,
                    install_dir,
                    nats,
                    wadm,
                    wasmcloud,
                    port,
                    nats_bin,
                    nats_started,
                    false,
                    Some(warning),
                    host_log,
                )
            },
        },
        (UpPhase::StartingWadm, UpEvent::ProcessSpawned { outcome }) => match outcome {
            Ok(_) => host_stage_step(
                detached,
                install_dir,
                nats,
                wadm,
                wasmcloud,
                port,
                nats_bin,
                nats_started,
                true,
                wadm_warning,
                host_log,
            ),
            Err(msg) => {
                let mut warning = "Couldn't start wadm: ".to_owned();
                warning.append(msg.as_str());
                host_stage_step(
                    detached,
                    install_dir,
                    nats,
                    wadm,
                    wasmcloud,
                    port,
                    nats_bin,
                    nats_started,
                    false,
                    Some(warning),
                    host_log,
                )
            },
        },
        (UpPhase::EnsuringHost, UpEvent::BinaryEnsured { outcome }) => match outcome {
            Ok(bin) => {
                let hl = host_log_path(install_dir.as_str(), port);
                let log = if detached {
                    Some(hl.clone())
                } else {
                    None
                };
                (
                    UpState {
                        detached,
                        install_dir,
                        nats,
                        wadm,
                        wasmcloud,
                        port,
                        nats_bin,
                        nats_started,
                        wadm_started,
                        wadm_warning,
                        host_log: Some(hl),
                        phase: UpPhase::StartingHost,
                    },
                    UpAction::StartHost { bin, log },
                )
            },
            Err(err) => rollback_step(
                detached,
                install_dir,
                nats,
                wadm,
                wasmcloud,
                port,
                nats_bin,
                nats_started,
                wadm_started,
                wadm_warning,
                host_log,
                wadm_started,
                nats_started,
                err,
            ),
        },
        (UpPhase::FindingHostBinary, UpEvent::HostBinaryProbed { exists }) => {
            if exists {
                let bin = wasmcloud_binary_path(
                    install_dir.as_str(),
                    wasmcloud.wasmcloud_version.as_str(),
                );
                let hl = host_log_path(install_dir.as_str(), port);
                let log = if detached {
                    Some(hl.clone())
                } else {
                    None
                };
                (
                    UpState {
                        detached,
                        install_dir,
                        nats,
                        wadm,
                        wasmcloud,
                        port,
                        nats_bin,
                        nats_started,
                        wadm_started,
                        wadm_warning,
                        host_log: Some(hl),
                        phase: UpPhase::StartingHost,
                    },
                    UpAction::StartHost { bin, log },
                )
            } else {
                rollback_step(
                    detached,
                    install_dir,
                    nats,
                    wadm,
                    wasmcloud,
                    port,
                    nats_bin,
                    nats_started,
                    wadm_started,
                    wadm_warning,
                    host_log,
                    false,
                    nats_started,
                    UpError::StartOnlyMissingBinary,
                )
            }
        },
        (UpPhase::StartingHost, UpEvent::ProcessSpawned { outcome }) => match outcome {
            Ok(_) => {
                let mut url = "127.0.0.1:".to_owned();
                let ps = u16_to_string(port);
                url.append(ps.as_str());
                let label = "Washboard".to_owned();
                (
                    UpState {
                        detached,
                        install_dir,
                        nats,
                        wadm,
                        wasmcloud,
                        port,
                        nats_bin,
                        nats_started,
                        wadm_started,
                        wadm_warning,
                        host_log,
                        phase: UpPhase::AwaitingReady,
                    },
                    UpAction::WaitReady { url, label },
                )
            },
            Err(msg) => rollback_step(
                detached,
                install_dir,
                nats,
                wadm,
                wasmcloud,
                port,
                nats_bin,
                nats_started,
                wadm_started,
                wadm_warning,
                host_log,
                wadm_started,
                nats_started,
                UpError::SpawnFailed { message: msg },
            ),
        },
        (UpPhase::AwaitingReady, UpEvent::ReadyWaited { ok }) => {
            if ok {
                if detached {
                    let path = wasmcloud_pid_path(install_dir.as_str());
                    let contents = wasmcloud.wasmcloud_version.clone();
                    (
                        UpState {
                            detached,
                            install_dir,
                            nats,
                            wadm,
                            wasmcloud,
                            port,
                            nats_bin,
                            nats_started,
                            wadm_started,
                            wadm_warning,
                            host_log,
                            phase: UpPhase::WritingHostMarker,
                        },
                        UpAction::WriteFile { path, contents },
                    )
                } else {
                    (
                        UpState {
                            detached,
                            install_dir,
                            nats,
                            wadm,
                            wasmcloud,
                            port,
                            nats_bin,
                            nats_started,
                            wadm_started,
                            wadm_warning,
                            host_log,
                            phase: UpPhase::RunningInteractive,
                        },
                        UpAction::RunInteractive { port },
                    )
                }
            } else {
                let hl = match &host_log {
                    Some(h) => h.clone(),
                    None => vstd::pervasive::unreached(),
                };
                let error = UpError::ReadinessTimeout {
                    label: "Washboard".to_owned(),
                    log_path: hl,
                };
                if nats_started {
                    (
                        UpState {
                            detached,
                            install_dir,
                            nats,
                            wadm,
                            wasmcloud,
                            port,
                            nats_bin,
                            nats_started,
                            wadm_started,
                            wadm_warning,
                            host_log,
                            phase: UpPhase::RollingBack {
                                awaiting: RollbackOp::Nats,
                                stop_nats_next: false,
                                error,
                                rollback_failure: None,
                            },
                        },
                        UpAction::StopNats,
                    )
                } else {
                    (
                        UpState {
                            detached,
                            install_dir,
                            nats,
                            wadm,
                            wasmcloud,
                            port,
                            nats_bin,
                            nats_started,
                            wadm_started,
                            wadm_warning,
                            host_log,
                            phase: UpPhase::Done,
                        },
                        UpAction::Finish {
                            outcome: UpOutcome::Failure { error, rollback_failure: None },
                        },
                    )
                }
            }
        },
        (UpPhase::WritingHostMarker, UpEvent::FileWritten { error }) => match error {
            None => {
                let hl = match &host_log {
                    Some(h) => h.clone(),
                    None => vstd::pervasive::unreached(),
                };
                let output = detached_output(
                    port,
                    hl.as_str(),
                    nats.nats_host.as_str(),
                    nats.nats_port,
                );
                (
                    UpState {
                        detached,
                        install_dir,
                        nats,
                        wadm,
                        wasmcloud,
                        port,
                        nats_bin,
                        nats_started,
                        wadm_started,
                        wadm_warning,
                        host_log,
                        phase: UpPhase::Done,
                    },
                    UpAction::Finish { outcome: UpOutcome::Success { output } },
                )
            },
            Some(msg) => (
                UpState {
                    detached,
                    install_dir,
                    nats,
                    wadm,
                    wasmcloud,
                    port,
                    nats_bin,
                    nats_started,
                    wadm_started,
                    wadm_warning,
                    host_log,
                    phase: UpPhase::Done,
                },
                UpAction::Finish {
                    outcome: UpOutcome::Failure {
                        error: UpError::FileWriteFailed { message: msg },
                        rollback_failure: None,
                    },
                },
            ),
        },
        (UpPhase::RunningInteractive, UpEvent::InteractiveDone) => {
            let path = wadm_pid_path(install_dir.as_str());
            (
                UpState {
                    detached,
                    install_dir,
                    nats,
                    wadm,
                    wasmcloud,
                    port,
                    nats_bin,
                    nats_started,
                    wadm_started,
                    wadm_warning,
                    host_log,
                    phase: UpPhase::RemovingWadmPid,
                },
                UpAction::RemoveWadmPid { path },
            )
        },
        (UpPhase::RemovingWadmPid, UpEvent::WadmPidRemoved) => {
            let output = interactive_output();
            (
                UpState {
                    detached,
                    install_dir,
                    nats,
                    wadm,
                    wasmcloud,
                    port,
                    nats_bin,
                    nats_started,
                    wadm_started,
                    wadm_warning,
                    host_log,
                    phase: UpPhase::Done,
                },
                UpAction::Finish { outcome: UpOutcome::Success { output } },
            )
        },
        (
            UpPhase::RollingBack { awaiting, stop_nats_next, error, rollback_failure },
            UpEvent::Stopped { error: kerr },
        ) => match awaiting {
            RollbackOp::Wadm => {
                if stop_nats_next {
                    (
                        UpState {
                            detached,
                            install_dir,
                            nats,
                            wadm,
                            wasmcloud,
                            port,
                            nats_bin,
                            nats_started,
                            wadm_started,
                            wadm_warning,
                            host_log,
                            phase: UpPhase::RollingBack {
                                awaiting: RollbackOp::Nats,
                                stop_nats_next: false,
                                error,
                                rollback_failure: kerr,
                            },
                        },
                        UpAction::StopNats,
                    )
                } else {
                    (
                        UpState {
                            detached,
                            install_dir,
                            nats,
                            wadm,
                            wasmcloud,
                            port,
                            nats_bin,
                            nats_started,
                            wadm_started,
                            wadm_warning,
                            host_log,
                            phase: UpPhase::Done,
                        },
                        UpAction::Finish {
                            outcome: UpOutcome::Failure { error, rollback_failure: kerr },
                        },
                    )
                }
            },
            RollbackOp::Nats => {
                let rf = if rollback_failure.is_some() {
                    rollback_failure
                } else {
                    kerr
                };
                (
                    UpState {
                        detached,
                        install_dir,
                        nats,
                        wadm,
                        wasmcloud,
                        port,
                        nats_bin,
                        nats_started,
                        wadm_started,
                        wadm_warning,
                        host_log,
                        phase: UpPhase::Done,
                    },
                    UpAction::Finish {
                        outcome: UpOutcome::Failure { error, rollback_failure: rf },
                    },
                )
            },
        },
        _ => vstd::pervasive::unreached(),
    }
}

/// Rollback after a host-start failure, where this invocation freshly
/// started the broker and nothing else: the failed spawn leads straight to
/// stopping that broker, and the invocation ends with the host-start error
/// itself — a tear-down failure is surfaced beside the original error,
/// never in its place.
pub proof fn lemma_host_start_failure_rolls_back_broker(
    s: UpState,
    e: UpEvent,
    s2: UpState,
    a: UpAction,
    e2: UpEvent,
    s3: UpState,
    a2: UpAction,
)
    requires
        up_step_rel(s, e, s2, a),
        up_step_rel(s2, e2, s3, a2),
        s.phase is StartingHost,
        s.nats_started,
        !s.wadm_started,
        e matches UpEvent::ProcessSpawned { outcome: Err(_) },
        e2 matches UpEvent::Stopped { .. },
    ensures
        a is StopNats,
        s3.phase is Done,
        ({
            &&& e matches UpEvent::ProcessSpawned { outcome: Err(msg) }
            &&& e2 matches UpEvent::Stopped { error: kerr }
            &&& a2 matches UpAction::Finish {
                outcome: UpOutcome::Failure { error, rollback_failure },
            }
            &&& error == (UpError::SpawnFailed { message: msg })
            &&& rollback_failure == kerr
        }),
{
}

/// Rollback after a host-start failure, where this invocation started both
/// the deployment manager and the broker: the deployment manager is killed
/// first, then the broker is stopped, and the invocation ends with the
/// host-start error itself; the first tear-down failure, if any, is
/// surfaced beside it.
pub proof fn lemma_host_start_failure_rolls_back_both(
    s: UpState,
    e: UpEvent,
    s2: UpState,
    a: UpAction,
    e2: UpEvent,
    s3: UpState,
    a2: UpAction,
    e3: UpEvent,
    s4: UpState,
    a3: UpAction,
)
    requires
        up_step_rel(s, e, s2, a),
        up_step_rel(s2, e2, s3, a2),
        up_step_rel(s3, e3, s4, a3),
        s.phase is StartingHost,
        s.nats_started,
        s.wadm_started,
        e matches UpEvent::ProcessSpawned { outcome: Err(_) },
        e2 matches UpEvent::Stopped { .. },
        e3 matches UpEvent::Stopped { .. },
    ensures
        a is KillWadm,
        a2 is StopNats,
        s4.phase is Done,
        ({
            &&& e matches UpEvent::ProcessSpawned { outcome: Err(msg) }
            &&& e2 matches UpEvent::Stopped { error: kerr2 }
            &&& e3 matches UpEvent::Stopped { error: kerr3 }
            &&& a3 matches UpAction::Finish {
                outcome: UpOutcome::Failure { error, rollback_failure },
            }
            &&& error == (UpError::SpawnFailed { message: msg })
            &&& rollback_failure == (if kerr2 is Some {
                kerr2
            } else {
                kerr3
            })
        }),
{
}

/// Graceful degradation: a failure to provision the deployment manager
/// never aborts the invocation. The controller records a warning naming
/// the failure and moves straight on to the host stage, with the
/// deployment manager marked as not started.
pub proof fn lemma_wadm_provision_failure_degrades(
    s: UpState,
    e: UpEvent,
    s2: UpState,
    a: UpAction,
)
    requires
        up_step_rel(s, e, s2, a),
        s.phase is EnsuringWadm,
        e matches UpEvent::BinaryEnsured { outcome: Err(_) },
    ensures
        s2.phase is EnsuringHost || s2.phase is FindingHostBinary,
        !(s2.phase is Done),
        !(a matches UpAction::Finish { .. }),
        !s2.wadm_started,
        ({
            &&& e matches UpEvent::BinaryEnsured { outcome: Err(err) }
            &&& s2.wadm_warning matches Some(w)
            &&& w@ == "Couldn't download wadm: "@ + up_error_message_spec(err)
        }),
{
}

/// Graceful degradation: a failure to start the deployment manager never
/// aborts the invocation either; a warning is recorded and the host stage
/// follows.
pub proof fn lemma_wadm_spawn_failure_degrades(s: UpState, e: UpEvent, s2: UpState, a: UpAction)
    requires
        up_step_rel(s, e, s2, a),
        s.phase is StartingWadm,
        e matches UpEvent::ProcessSpawned { outcome: Err(_) },
    ensures
        s2.phase is EnsuringHost || s2.phase is FindingHostBinary,
        !(s2.phase is Done),
        !(a matches UpAction::Finish { .. }),
        !s2.wadm_started,
        ({
            &&& e matches UpEvent::ProcessSpawned { outcome: Err(msg) }
            &&& s2.wadm_warning matches Some(w)
            &&& w@ == "Couldn't start wadm: "@ + msg@
        }),
{
}

} // verus!
