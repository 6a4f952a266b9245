use wash_up::config::NatsOpts;
use wash_up::config::UpCommand;
use wash_up::config::WadmOpts;
use wash_up::config::WasmcloudOpts;
use wash_up::errors::UpError;
use wash_up::orchestrate::up_start;
use wash_up::orchestrate::up_step;
use wash_up::orchestrate::UpAction;
use wash_up::orchestrate::UpEvent;
use wash_up::orchestrate::UpOutcome;
use wash_up::orchestrate::UpState;
use wash_up::output::JsonVal;

fn base_nats_opts() -> NatsOpts {
    NatsOpts {
        nats_credsfile: None,
        nats_remote_url: None,
        connect_only: false,
        nats_version: "v2.8.4".to_string(),
        nats_host: "127.0.0.1".to_string(),
        nats_port: 4222,
        nats_js_domain: None,
    }
}

fn base_wasmcloud_opts() -> WasmcloudOpts {
    WasmcloudOpts {
        wasmcloud_version: "v0.63.0".to_string(),
        lattice_prefix: "default".to_string(),
        host_seed: None,
        rpc_host: None,
        rpc_port: None,
        rpc_seed: None,
        rpc_timeout_ms: 2000,
        rpc_jwt: None,
        rpc_tls: false,
        rpc_credsfile: None,
        prov_rpc_host: None,
        prov_rpc_port: None,
        prov_rpc_seed: None,
        prov_rpc_tls: false,
        prov_rpc_jwt: None,
        prov_rpc_credsfile: None,
        ctl_host: None,
        ctl_port: None,
        ctl_seed: None,
        ctl_jwt: None,
        ctl_credsfile: None,
        ctl_tls: false,
        cluster_seed: None,
        cluster_issuers: None,
        provider_delay: 300,
        allow_latest: false,
        allowed_insecure: None,
        wasmcloud_js_domain: None,
        config_service_enabled: false,
        allow_file_load: None,
        enable_structured_logging: false,
        structured_log_level: "info".to_string(),
        dashboard_port: None,
        enable_ipv6: false,
        start_only: false,
    }
}

fn base_command(detached: bool) -> UpCommand {
    UpCommand {
        detached,
        nats_opts: base_nats_opts(),
        wasmcloud_opts: base_wasmcloud_opts(),
        wadm_opts: WadmOpts { wadm_version: "v0.4.0".to_string(), disable_wadm: false },
    }
}

#[test]
fn detached_up_runs_the_whole_sequence() {
    let (s, a) = up_start(base_command(true), "/root/.wash/downloads".to_string());
    assert!(matches!(a, UpAction::SelectPort { supplied: None }));

    // The probe picks the default dashboard port.
    let (s, a) = up_step(s, UpEvent::PortSelected { outcome: Ok(4000) });
    match &a {
        UpAction::TryNatsConnect { params } => {
            assert_eq!(params.host, "127.0.0.1");
            assert_eq!(params.port_str, "4222");
        }
        _ => panic!("a selected port leads to the broker probe"),
    }

    // No broker answers: one is provisioned and started.
    let (s, a) = up_step(s, UpEvent::NatsConnect { error: Some("no broker".to_string()) });
    match &a {
        UpAction::EnsureNatsBinary { version, dir } => {
            assert_eq!(version, "v2.8.4");
            assert_eq!(dir, "/root/.wash/downloads");
        }
        _ => panic!("an unreachable broker is provisioned"),
    }
    let (s, a) = up_step(
        s,
        UpEvent::BinaryEnsured { outcome: Ok("/root/.wash/downloads/nats".to_string()) },
    );
    match &a {
        UpAction::StartNats { bin, log, config } => {
            assert_eq!(bin, "/root/.wash/downloads/nats");
            assert_eq!(log, "/root/.wash/downloads/nats.log");
            assert_eq!(config.host, "127.0.0.1");
            assert_eq!(config.port, 4222);
        }
        _ => panic!("the provisioned broker is started"),
    }

    // The spawn reports a pid, which is persisted for later teardown.
    let (s, a) = up_step(s, UpEvent::ProcessSpawned { outcome: Ok(Some(4242)) });
    match &a {
        UpAction::WriteFile { path, contents } => {
            assert_eq!(path, "/root/.wash/downloads/nats.pid");
            assert_eq!(contents, "4242");
        }
        _ => panic!("the broker pid is persisted"),
    }
    let (s, a) = up_step(s, UpEvent::FileWritten { error: None });
    assert!(matches!(a, UpAction::TryNatsConnect { .. }));

    // The mandatory connection succeeds; the deployment manager is not yet
    // on the lattice, so it is provisioned and started.
    let (s, a) = up_step(s, UpEvent::NatsConnect { error: None });
    match &a {
        UpAction::CheckWadm { host, port_str, lattice, .. } => {
            assert_eq!(host, "127.0.0.1");
            assert_eq!(port_str, "4222");
            assert_eq!(lattice, "default");
        }
        _ => panic!("a ready broker leads to the deployment-manager query"),
    }
    let (s, a) = up_step(s, UpEvent::WadmQueried { running: false });
    assert!(matches!(a, UpAction::EnsureWadmBinary { .. }));
    let (s, a) = up_step(
        s,
        UpEvent::BinaryEnsured { outcome: Ok("/root/.wash/downloads/wadm".to_string()) },
    );
    match &a {
        UpAction::StartWadm { bin, log, config } => {
            assert_eq!(bin, "/root/.wash/downloads/wadm");
            assert_eq!(log, "/root/.wash/downloads/wadm.log");
            assert_eq!(config.nats_server_url, "127.0.0.1:4222");
            assert_eq!(config.nats_credsfile, None);
            assert!(!config.structured_logging);
        }
        _ => panic!("the provisioned deployment manager is started"),
    }
    let (s, a) = up_step(s, UpEvent::ProcessSpawned { outcome: Ok(None) });
    assert!(matches!(a, UpAction::EnsureHostBinary { .. }));

    // The host binary arrives and the host is launched, stderr to its log
    // file since the run is detached.
    let (s, a) = up_step(
        s,
        UpEvent::BinaryEnsured {
            outcome: Ok("/root/.wash/downloads/v0.63.0/wasmcloud_host".to_string()),
        },
    );
    match &a {
        UpAction::StartHost { bin, log } => {
            assert_eq!(bin, "/root/.wash/downloads/v0.63.0/wasmcloud_host");
            assert_eq!(log.as_deref(), Some("/root/.wash/downloads/wasmcloud_4000.log"));
        }
        _ => panic!("the host is started"),
    }
    let (s, a) = up_step(s, UpEvent::ProcessSpawned { outcome: Ok(None) });
    match &a {
        UpAction::WaitReady { url, label } => {
            assert_eq!(url, "127.0.0.1:4000");
            assert_eq!(label, "Washboard");
        }
        _ => panic!("the dashboard is polled for readiness"),
    }

    // Readiness confirmed: the marker file records the version, and the
    // run ends with the machine-readable payload.
    let (s, a) = up_step(s, UpEvent::ReadyWaited { ok: true });
    match &a {
        UpAction::WriteFile { path, contents } => {
            assert_eq!(path, "/root/.wash/downloads/wasmcloud.pid");
            assert_eq!(contents, "v0.63.0");
        }
        _ => panic!("the detached run records the host version"),
    }
    let (_, a) = up_step(s, UpEvent::FileWritten { error: None });
    match a {
        UpAction::Finish { outcome: UpOutcome::Success { output } } => {
            let pairs = output.pairs;
            assert_eq!(pairs.len(), 5);
            assert_eq!(pairs[0].0, "success");
            assert!(matches!(pairs[0].1, JsonVal::Bool(true)));
            assert_eq!(pairs[1].0, "wasmcloud_url");
            match &pairs[1].1 {
                JsonVal::Str(u) => assert_eq!(u, "http://localhost:4000"),
                _ => panic!("the dashboard URL is a string"),
            }
            assert_eq!(pairs[2].0, "wasmcloud_log");
            match &pairs[2].1 {
                JsonVal::Str(l) => assert_eq!(l, "/root/.wash/downloads/wasmcloud_4000.log"),
                _ => panic!("the log path is a string"),
            }
            assert_eq!(pairs[3].0, "kill_cmd");
            match &pairs[3].1 {
                JsonVal::Str(k) => assert_eq!(k, "wash down"),
                _ => panic!("the teardown hint is a string"),
            }
            assert_eq!(pairs[4].0, "nats_url");
            match &pairs[4].1 {
                JsonVal::Str(n) => assert_eq!(n, "127.0.0.1:4222"),
                _ => panic!("the broker address is a string"),
            }
        }
        _ => panic!("a detached run ends with the success payload"),
    }
}

#[test]
fn occupied_supplied_port_fails_fast() {
    let mut cmd = base_command(true);
    cmd.wasmcloud_opts.dashboard_port = Some(4000);
    let (s, a) = up_start(cmd, "/r".to_string());
    assert!(matches!(a, UpAction::SelectPort { supplied: Some(4000) }));
    let (_, a) = up_step(
        s,
        UpEvent::PortSelected { outcome: Err(UpError::PortOccupied { port: 4000 }) },
    );
    match a {
        UpAction::Finish {
            outcome: UpOutcome::Failure { error, rollback_failure },
        } => {
            assert!(matches!(error, UpError::PortOccupied { port: 4000 }));
            assert!(rollback_failure.is_none());
        }
        _ => panic!("an occupied supplied port aborts at once"),
    }
}

fn state_before_host_start(started_nats: bool, started_wadm: bool) -> UpState {
    // Drive a real run up to the host launch, steering the broker and
    // deployment-manager stages as asked.
    let (s, _) = up_start(base_command(true), "/r".to_string());
    let (s, _) = up_step(s, UpEvent::PortSelected { outcome: Ok(4001) });
    let s = if started_nats {
        let (s, _) = up_step(s, UpEvent::NatsConnect { error: Some("down".to_string()) });
        let (s, _) = up_step(s, UpEvent::BinaryEnsured { outcome: Ok("/r/nats".to_string()) });
        let (s, _) = up_step(s, UpEvent::ProcessSpawned { outcome: Ok(None) });
        s
    } else {
        let (s, _) = up_step(s, UpEvent::NatsConnect { error: None });
        s
    };
    let (s, _) = up_step(s, UpEvent::NatsConnect { error: None });
    let (s, _) = up_step(s, UpEvent::WadmQueried { running: !started_wadm });
    let s = if started_wadm {
        let (s, _) = up_step(s, UpEvent::BinaryEnsured { outcome: Ok("/r/wadm".to_string()) });
        let (s, _) = up_step(s, UpEvent::ProcessSpawned { outcome: Ok(None) });
        s
    } else {
        s
    };
    let (s, _) = up_step(
        s,
        UpEvent::BinaryEnsured { outcome: Ok("/r/v0.63.0/wasmcloud_host".to_string()) },
    );
    s
}

#[test]
fn host_start_failure_rolls_back_the_fresh_broker() {
    let s = state_before_host_start(true, false);
    let (s, a) = up_step(
        s,
        UpEvent::ProcessSpawned { outcome: Err("exec format error".to_string()) },
    );
    assert!(matches!(a, UpAction::StopNats));
    let (_, a) = up_step(s, UpEvent::Stopped { error: None });
    match a {
        UpAction::Finish {
            outcome: UpOutcome::Failure { error, rollback_failure },
        } => {
            // The returned error is the host-start error, not a rollback
            // error.
            match error {
                UpError::SpawnFailed { message } => assert_eq!(message, "exec format error"),
                _ => panic!("the original spawn error must be surfaced"),
            }
            assert!(rollback_failure.is_none());
        }
        _ => panic!("the run ends after the rollback"),
    }
}

#[test]
fn host_start_failure_kills_wadm_then_stops_broker() {
    let s = state_before_host_start(true, true);
    let (s, a) = up_step(s, UpEvent::ProcessSpawned { outcome: Err("boom".to_string()) });
    assert!(matches!(a, UpAction::KillWadm));
    let (s, a) = up_step(
        s,
        UpEvent::Stopped { error: Some("kill failed".to_string()) },
    );
    assert!(matches!(a, UpAction::StopNats));
    let (_, a) = up_step(s, UpEvent::Stopped { error: None });
    match a {
        UpAction::Finish {
            outcome: UpOutcome::Failure { error, rollback_failure },
        } => {
            // Both the original error and the tear-down failure surface;
            // neither masks the other.
            assert!(matches!(error, UpError::SpawnFailed { .. }));
            assert_eq!(rollback_failure.as_deref(), Some("kill failed"));
        }
        _ => panic!("the run ends after the rollback"),
    }
}

#[test]
fn host_start_failure_spares_a_broker_it_did_not_start() {
    // Connect-only against a pre-existing broker: nothing this invocation
    // did not start is torn down.
    let s = state_before_host_start(false, false);
    let (_, a) = up_step(s, UpEvent::ProcessSpawned { outcome: Err("boom".to_string()) });
    match a {
        UpAction::Finish {
            outcome: UpOutcome::Failure { error, rollback_failure },
        } => {
            assert!(matches!(error, UpError::SpawnFailed { .. }));
            assert!(rollback_failure.is_none());
        }
        _ => panic!("with nothing started there is nothing to roll back"),
    }
}

#[test]
fn wadm_download_failure_degrades_to_success() {
    // The deployment manager cannot be downloaded: the run warns and still
    // reaches readiness and the success payload.
    let (s, _) = up_start(base_command(true), "/r".to_string());
    let (s, _) = up_step(s, UpEvent::PortSelected { outcome: Ok(4000) });
    let (s, _) = up_step(s, UpEvent::NatsConnect { error: Some("down".to_string()) });
    let (s, _) = up_step(s, UpEvent::BinaryEnsured { outcome: Ok("/r/nats".to_string()) });
    let (s, _) = up_step(s, UpEvent::ProcessSpawned { outcome: Ok(None) });
    let (s, _) = up_step(s, UpEvent::NatsConnect { error: None });
    let (s, _) = up_step(s, UpEvent::WadmQueried { running: false });
    let (s, a) = up_step(
        s,
        UpEvent::BinaryEnsured {
            outcome: Err(UpError::DownloadFailed {
                url: "https://releases.example/wadm".to_string(),
                status: 404,
            }),
        },
    );
    // Degraded, not fatal: the host stage follows at once.
    assert!(matches!(a, UpAction::EnsureHostBinary { .. }));
    assert_eq!(
        s.wadm_warning.as_deref(),
        Some("Couldn't download wadm: Failed to download wasmCloud host from https://releases.example/wadm. Status code: 404")
    );
    let (s, _) = up_step(
        s,
        UpEvent::BinaryEnsured { outcome: Ok("/r/v0.63.0/wasmcloud_host".to_string()) },
    );
    let (s, _) = up_step(s, UpEvent::ProcessSpawned { outcome: Ok(None) });
    let (s, a) = up_step(s, UpEvent::ReadyWaited { ok: true });
    assert!(matches!(a, UpAction::WriteFile { .. }));
    let (_, a) = up_step(s, UpEvent::FileWritten { error: None });
    assert!(matches!(
        a,
        UpAction::Finish { outcome: UpOutcome::Success { .. } }
    ));
}

#[test]
fn readiness_timeout_rolls_back_the_fresh_broker() {
    let s = state_before_host_start(true, false);
    let (s, _) = up_step(s, UpEvent::ProcessSpawned { outcome: Ok(None) });
    let (s, a) = up_step(s, UpEvent::ReadyWaited { ok: false });
    assert!(matches!(a, UpAction::StopNats));
    let (_, a) = up_step(s, UpEvent::Stopped { error: None });
    match a {
        UpAction::Finish {
            outcome: UpOutcome::Failure { error, rollback_failure },
        } => {
            match error {
                UpError::ReadinessTimeout { label, log_path } => {
                    assert_eq!(label, "Washboard");
                    assert_eq!(log_path, "/r/wasmcloud_4001.log");
                }
                _ => panic!("a readiness timeout names the log to inspect"),
            }
            assert!(rollback_failure.is_none());
        }
        _ => panic!("the run ends after the rollback"),
    }
}

#[test]
fn interactive_up_removes_the_wadm_marker() {
    let (s, _) = up_start(base_command(false), "/r".to_string());
    let (s, _) = up_step(s, UpEvent::PortSelected { outcome: Ok(4000) });
    let (s, _) = up_step(s, UpEvent::NatsConnect { error: None });
    let (s, _) = up_step(s, UpEvent::NatsConnect { error: None });
    let (s, _) = up_step(s, UpEvent::WadmQueried { running: true });
    let (s, a) = up_step(
        s,
        UpEvent::BinaryEnsured { outcome: Ok("/r/v0.63.0/wasmcloud_host".to_string()) },
    );
    // Interactive mode pipes stderr to the console instead of a log file.
    match &a {
        UpAction::StartHost { log, .. } => assert!(log.is_none()),
        _ => panic!("the host is started"),
    }
    let (s, _) = up_step(s, UpEvent::ProcessSpawned { outcome: Ok(None) });
    let (s, a) = up_step(s, UpEvent::ReadyWaited { ok: true });
    match &a {
        UpAction::RunInteractive { port } => assert_eq!(*port, 4000),
        _ => panic!("a ready host hands over to the interactive session"),
    }
    let (s, a) = up_step(s, UpEvent::InteractiveDone);
    match &a {
        UpAction::RemoveWadmPid { path } => assert_eq!(path, "/r/wadm.pid"),
        _ => panic!("the session's end removes the marker"),
    }
    let (_, a) = up_step(s, UpEvent::WadmPidRemoved);
    match a {
        UpAction::Finish { outcome: UpOutcome::Success { output } } => {
            assert_eq!(output.pairs.len(), 1);
            assert_eq!(output.pairs[0].0, "success");
        }
        _ => panic!("an interactive run ends in success"),
    }
}

#[test]
fn start_only_missing_binary_is_fatal() {
    let (s, _) = up_start(
        {
            let mut cmd = base_command(true);
            cmd.wasmcloud_opts.start_only = true;
            cmd
        },
        "/r".to_string(),
    );
    let (s, _) = up_step(s, UpEvent::PortSelected { outcome: Ok(4000) });
    let (s, _) = up_step(s, UpEvent::NatsConnect { error: Some("down".to_string()) });
    let (s, _) = up_step(s, UpEvent::BinaryEnsured { outcome: Ok("/r/nats".to_string()) });
    let (s, _) = up_step(s, UpEvent::ProcessSpawned { outcome: Ok(None) });
    let (s, _) = up_step(s, UpEvent::NatsConnect { error: None });
    let (s, a) = up_step(s, UpEvent::WadmQueried { running: true });
    match &a {
        UpAction::ProbeHostBinary { path } => {
            assert_eq!(path, "/r/v0.63.0/wasmcloud_host")
        }
        _ => panic!("start-only looks the binary up instead of fetching it"),
    }
    let (s, a) = up_step(s, UpEvent::HostBinaryProbed { exists: false });
    // The freshly started broker is rolled back before the error surfaces.
    assert!(matches!(a, UpAction::StopNats));
    let (_, a) = up_step(s, UpEvent::Stopped { error: None });
    match a {
        UpAction::Finish { outcome: UpOutcome::Failure { error, .. } } => {
            assert!(matches!(error, UpError::StartOnlyMissingBinary));
        }
        _ => panic!("a missing binary in start-only mode is fatal"),
    }
}
