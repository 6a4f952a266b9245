use wash_up::config::ctl_client_config;
use wash_up::config::nats_params_from_wasmcloud_opts;
use wash_up::config::resolve_wasmcloud_opts;
use wash_up::config::NatsConfig;
use wash_up::config::NatsOpts;
use wash_up::config::WasmcloudOpts;

fn nats_opts() -> NatsOpts {
    NatsOpts {
        nats_credsfile: Some("/creds".to_string()),
        nats_remote_url: None,
        connect_only: false,
        nats_version: "v2.8.4".to_string(),
        nats_host: "127.0.0.2".to_string(),
        nats_port: 4233,
        nats_js_domain: Some("domain".to_string()),
    }
}

fn wasmcloud_opts() -> WasmcloudOpts {
    WasmcloudOpts {
        wasmcloud_version: "v0.63.0".to_string(),
        lattice_prefix: "anotherprefix".to_string(),
        host_seed: None,
        rpc_host: None,
        rpc_port: Some(4111),
        rpc_seed: None,
        rpc_timeout_ms: 500,
        rpc_jwt: None,
        rpc_tls: false,
        rpc_credsfile: None,
        prov_rpc_host: Some("10.0.0.1".to_string()),
        prov_rpc_port: None,
        prov_rpc_seed: None,
        prov_rpc_tls: false,
        prov_rpc_jwt: None,
        prov_rpc_credsfile: None,
        ctl_host: None,
        ctl_port: None,
        ctl_seed: Some("SEED".to_string()),
        ctl_jwt: Some("JWT".to_string()),
        ctl_credsfile: None,
        ctl_tls: true,
        cluster_seed: None,
        cluster_issuers: None,
        provider_delay: 300,
        allow_latest: true,
        allowed_insecure: None,
        wasmcloud_js_domain: Some("js".to_string()),
        config_service_enabled: false,
        allow_file_load: Some(true),
        enable_structured_logging: false,
        structured_log_level: "warn".to_string(),
        dashboard_port: None,
        enable_ipv6: false,
        start_only: false,
    }
}

#[test]
fn unset_channels_default_to_the_broker_address() {
    let merged = resolve_wasmcloud_opts(wasmcloud_opts(), &nats_opts(), 4000);
    // The probed dashboard port is fixed.
    assert_eq!(merged.dashboard_port, Some(4000));
    // Unset per-channel hosts and ports fall back to the broker's.
    assert_eq!(merged.ctl_host.as_deref(), Some("127.0.0.2"));
    assert_eq!(merged.ctl_port, Some(4233));
    assert_eq!(merged.rpc_host.as_deref(), Some("127.0.0.2"));
    assert_eq!(merged.prov_rpc_port, Some(4233));
    // Supplied overrides stay.
    assert_eq!(merged.rpc_port, Some(4111));
    assert_eq!(merged.prov_rpc_host.as_deref(), Some("10.0.0.1"));
    // Everything else passes through untouched.
    assert_eq!(merged.lattice_prefix, "anotherprefix");
    assert_eq!(merged.ctl_seed.as_deref(), Some("SEED"));
    assert_eq!(merged.structured_log_level, "warn");
    assert!(merged.allow_latest);
    assert!(merged.ctl_tls);
}

#[test]
fn broker_config_is_the_broker_options_verbatim() {
    let config = NatsConfig::from(nats_opts());
    assert_eq!(config.host, "127.0.0.2");
    assert_eq!(config.port, 4233);
    assert_eq!(config.js_domain.as_deref(), Some("domain"));
    assert_eq!(config.remote_url, None);
    assert_eq!(config.credentials.as_deref(), Some("/creds"));
}

#[test]
fn client_params_use_stock_defaults() {
    let params = nats_params_from_wasmcloud_opts(&wasmcloud_opts());
    assert_eq!(params.host, "127.0.0.1");
    assert_eq!(params.port_str, "4222");
    assert_eq!(params.jwt.as_deref(), Some("JWT"));
    assert_eq!(params.seed.as_deref(), Some("SEED"));
    assert_eq!(params.credsfile, None);

    let mut opts = wasmcloud_opts();
    opts.ctl_host = Some("nats.example".to_string());
    opts.ctl_port = Some(5222);
    let params = nats_params_from_wasmcloud_opts(&opts);
    assert_eq!(params.host, "nats.example");
    assert_eq!(params.port_str, "5222");
}

#[test]
fn ctl_client_config_defaults_the_auction_timeout() {
    let cfg = ctl_client_config(&wasmcloud_opts(), None);
    assert_eq!(cfg.lattice_prefix, "anotherprefix");
    assert_eq!(cfg.rpc_timeout_ms, 500);
    assert_eq!(cfg.auction_timeout_ms, 2000);
    assert_eq!(cfg.js_domain.as_deref(), Some("js"));

    let cfg = ctl_client_config(&wasmcloud_opts(), Some(750));
    assert_eq!(cfg.auction_timeout_ms, 750);
}
