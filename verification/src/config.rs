//! The caller-facing option structs and the explicit merge that resolves
//! them into a fully-determined configuration before anything is launched:
//! per-channel broker host/port overrides default to the shared broker
//! host/port, and the dashboard port is fixed to the port the probe chose.

use vstd::prelude::*;

verus! {

use vstd::string::StrSliceExecFns;
use vstd::string::StringExecFns;
use crate::strutil::dec_digits;
use crate::strutil::u16_to_string;

/// The default broker host.
pub const DEFAULT_NATS_HOST: &'static str = "127.0.0.1";

/// The default broker port.
pub const DEFAULT_NATS_PORT: u16 = 4222;

/// The default control-interface auction timeout, in milliseconds.
pub const DEFAULT_NATS_TIMEOUT_MS: u64 = 2000;

/// Broker-related options of an `up` invocation.
#[derive(Debug)]
pub struct NatsOpts {
    /// Credentials file used to authenticate against existing infrastructure.
    pub nats_credsfile: Option<String>,
    /// Remote URL of existing broker infrastructure to extend as a leaf node.
    pub nats_remote_url: Option<String>,
    /// Never start a local broker; fail if no connection can be established.
    pub connect_only: bool,
    /// Broker server version to download.
    pub nats_version: String,
    /// Broker host to connect to.
    pub nats_host: String,
    /// Broker port to connect to, and the listen port of a locally started one.
    pub nats_port: u16,
    /// Jetstream domain.
    pub nats_js_domain: Option<String>,
}

impl Clone for NatsOpts {
    fn clone(&self) -> (r: NatsOpts)
        ensures
            r == *self,
    {
        NatsOpts {
            nats_credsfile: self.nats_credsfile.clone(),
            nats_remote_url: self.nats_remote_url.clone(),
            connect_only: self.connect_only,
            nats_version: self.nats_version.clone(),
            nats_host: self.nats_host.clone(),
            nats_port: self.nats_port,
            nats_js_domain: self.nats_js_domain.clone(),
        }
    }
}

/// Host-related options of an `up` invocation.
#[derive(Clone, Debug)]
pub struct WasmcloudOpts {
    /// Host version to download.
    pub wasmcloud_version: String,
    /// The lattice prefix isolating this set of hosts.
    pub lattice_prefix: String,
    /// Seed key used by the host to generate its public key.
    pub host_seed: Option<String>,
    /// Host to use for RPC messages; defaults to the broker host.
    pub rpc_host: Option<String>,
    /// Port to use for RPC messages; defaults to the broker port.
    pub rpc_port: Option<u16>,
    /// Seed for RPC authentication.
    pub rpc_seed: Option<String>,
    /// Timeout of RPC calls, in milliseconds.
    pub rpc_timeout_ms: u32,
    /// JWT for RPC authentication.
    pub rpc_jwt: Option<String>,
    /// Whether RPC traffic uses TLS.
    pub rpc_tls: bool,
    /// Credentials file for RPC authentication.
    pub rpc_credsfile: Option<String>,
    /// Host to use for provider RPC messages; defaults to the broker host.
    pub prov_rpc_host: Option<String>,
    /// Port to use for provider RPC messages; defaults to the broker port.
    pub prov_rpc_port: Option<u16>,
    /// Seed for provider RPC authentication.
    pub prov_rpc_seed: Option<String>,
    /// Whether provider RPC traffic uses TLS.
    pub prov_rpc_tls: bool,
    /// JWT for provider RPC authentication.
    pub prov_rpc_jwt: Option<String>,
    /// Credentials file for provider RPC authentication.
    pub prov_rpc_credsfile: Option<String>,
    /// Host to use for control-interface messages; defaults to the broker host.
    pub ctl_host: Option<String>,
    /// Port to use for control-interface messages; defaults to the broker port.
    pub ctl_port: Option<u16>,
    /// Seed for control-interface authentication.
    pub ctl_seed: Option<String>,
    /// JWT for control-interface authentication.
    pub ctl_jwt: Option<String>,
    /// Credentials file for control-interface authentication.
    pub ctl_credsfile: Option<String>,
    /// Whether control-interface traffic uses TLS.
    pub ctl_tls: bool,
    /// Seed key used by the host to sign invocations.
    pub cluster_seed: Option<String>,
    /// Public keys accepted as issuers on signed invocations.
    pub cluster_issuers: Option<Vec<String>>,
    /// Delay between requesting a provider shutdown and forcing it, in ms.
    pub provider_delay: u32,
    /// Whether images tagged `latest` may be started.
    pub allow_latest: bool,
    /// Registry hosts to which insecure connections are allowed.
    pub allowed_insecure: Option<Vec<String>>,
    /// Jetstream domain of the host.
    pub wasmcloud_js_domain: Option<String>,
    /// Whether the host asks a config service on startup.
    pub config_service_enabled: bool,
    /// Whether workloads may be loaded from the file system.
    pub allow_file_load: Option<bool>,
    /// Whether the host emits JSON structured logs.
    pub enable_structured_logging: bool,
    /// Verbosity of structured logs.
    pub structured_log_level: String,
    /// Dashboard port; chosen by probing when not supplied.
    pub dashboard_port: Option<u16>,
    /// Whether the host binds IPv6 addresses.
    pub enable_ipv6: bool,
    /// Never download the host binary; fail if it is not installed.
    pub start_only: bool,
}

/// Deployment-manager options of an `up` invocation.
#[derive(Clone, Debug)]
pub struct WadmOpts {
    /// Deployment-manager version to download.
    pub wadm_version: String,
    /// Skip the deployment manager entirely.
    pub disable_wadm: bool,
}

/// A whole `up` invocation, as handed over by the caller.
#[derive(Clone, Debug)]
pub struct UpCommand {
    /// Leave the processes running in the background and return immediately.
    pub detached: bool,
    pub nats_opts: NatsOpts,
    pub wasmcloud_opts: WasmcloudOpts,
    pub wadm_opts: WadmOpts,
}

/// What a locally started broker is configured with.
#[derive(Clone, Debug)]
pub struct NatsConfig {
    pub host: String,
    pub port: u16,
    pub js_domain: Option<String>,
    pub remote_url: Option<String>,
    pub credentials: Option<String>,
}

/// What a locally started deployment manager is configured with.
#[derive(Clone, Debug)]
pub struct WadmConfig {
    pub structured_logging: bool,
    pub js_domain: Option<String>,
    pub nats_server_url: String,
    pub nats_credsfile: Option<String>,
}

/// The broker configuration a locally started broker gets: the broker
/// options, verbatim.
pub open spec fn nats_config_of(other: NatsOpts) -> NatsConfig {
    NatsConfig {
        host: other.nats_host,
        port: other.nats_port,
        js_domain: other.nats_js_domain,
        remote_url: other.nats_remote_url,
        credentials: other.nats_credsfile,
    }
}

impl vstd::std_specs::convert::FromSpecImpl<NatsOpts> for NatsConfig {
    open spec fn obeys_from_spec() -> bool {
        true
    }

    open spec fn from_spec(other: NatsOpts) -> NatsConfig {
        nats_config_of(other)
    }
}

impl From<NatsOpts> for NatsConfig {
    /// The broker configuration is the broker-related options, verbatim.
    fn from(other: NatsOpts) -> (r: NatsConfig) {
        NatsConfig {
            host: other.nats_host,
            port: other.nats_port,
            js_domain: other.nats_js_domain,
            remote_url: other.nats_remote_url,
            credentials: other.nats_credsfile,
        }
    }
}

/// The host options with every defaulting rule applied: the dashboard port
/// is the probed port, and each per-channel host/port falls back to the
/// shared broker host/port where no override was supplied. All other fields
/// pass through untouched.
pub open spec fn merged_wasmcloud_opts(w: WasmcloudOpts, n: NatsOpts, host_port: u16) -> WasmcloudOpts {
    WasmcloudOpts {
        dashboard_port: Some(host_port),
        ctl_host: Some(if w.ctl_host is Some { w.ctl_host->0 } else { n.nats_host }),
        ctl_port: Some(if w.ctl_port is Some { w.ctl_port->0 } else { n.nats_port }),
        rpc_host: Some(if w.rpc_host is Some { w.rpc_host->0 } else { n.nats_host }),
        rpc_port: Some(if w.rpc_port is Some { w.rpc_port->0 } else { n.nats_port }),
        prov_rpc_host: Some(if w.prov_rpc_host is Some { w.prov_rpc_host->0 } else { n.nats_host }),
        prov_rpc_port: Some(if w.prov_rpc_port is Some { w.prov_rpc_port->0 } else { n.nats_port }),
        ..w
    }
}

/// Applies the defaulting rules to the host options.
pub fn resolve_wasmcloud_opts(w: WasmcloudOpts, n: &NatsOpts, host_port: u16) -> (r: WasmcloudOpts)
    ensures
        r == merged_wasmcloud_opts(w, *n, host_port),
{
    let ctl_host = match w.ctl_host {
        Some(h) => h,
        None => n.nats_host.clone(),
    };
    let ctl_port = match w.ctl_port {
        Some(p) => p,
        None => n.nats_port,
    };
    let rpc_host = match w.rpc_host {
        Some(h) => h,
        None => n.nats_host.clone(),
    };
    let rpc_port = match w.rpc_port {
        Some(p) => p,
        None => n.nats_port,
    };
    let prov_rpc_host = match w.prov_rpc_host {
        Some(h) => h,
        None => n.nats_host.clone(),
    };
    let prov_rpc_port = match w.prov_rpc_port {
        Some(p) => p,
        None => n.nats_port,
    };
    WasmcloudOpts {
        dashboard_port: Some(host_port),
        ctl_host: Some(ctl_host),
        ctl_port: Some(ctl_port),
        rpc_host: Some(rpc_host),
        rpc_port: Some(rpc_port),
        prov_rpc_host: Some(prov_rpc_host),
        prov_rpc_port: Some(prov_rpc_port),
        ..w
    }
}

/// What a broker client connection is attempted with: the control-interface
/// channel of the host options, with the stock defaults where nothing was
/// supplied.
#[derive(Clone, Debug)]
pub struct NatsClientParams {
    pub host: String,
    pub port_str: String,
    pub jwt: Option<String>,
    pub seed: Option<String>,
    pub credsfile: Option<String>,
}

/// Derives the broker connection parameters the host itself will use.
pub fn nats_params_from_wasmcloud_opts(opts: &WasmcloudOpts) -> (r: NatsClientParams)
    ensures
        opts.ctl_host matches Some(h) ==> r.host == h,
        opts.ctl_host is None ==> r.host@ == DEFAULT_NATS_HOST@,
        opts.ctl_port matches Some(p) ==> r.port_str@ == dec_digits(p as nat),
        opts.ctl_port is None ==> r.port_str@ == dec_digits(DEFAULT_NATS_PORT as nat),
        r.jwt == opts.ctl_jwt,
        r.seed == opts.ctl_seed,
        r.credsfile == opts.ctl_credsfile,
{
    let host = match &opts.ctl_host {
        Some(h) => h.clone(),
        None => DEFAULT_NATS_HOST.to_owned(),
    };
    let port = match opts.ctl_port {
        Some(p) => p,
        None => DEFAULT_NATS_PORT,
    };
    NatsClientParams {
        host,
        port_str: u16_to_string(port),
        jwt: opts.ctl_jwt.clone(),
        seed: opts.ctl_seed.clone(),
        credsfile: opts.ctl_credsfile.clone(),
    }
}

/// Everything the control-interface client builder is configured with.
#[derive(Clone, Debug)]
pub struct CtlClientConfig {
    pub lattice_prefix: String,
    pub rpc_timeout_ms: u32,
    pub auction_timeout_ms: u64,
    pub js_domain: Option<String>,
}

/// Derives the control-interface client configuration: the lattice prefix
/// and Jetstream domain pass through, the RPC timeout is the caller's, and
/// the auction timeout falls back to the stock default.
pub fn ctl_client_config(opts: &WasmcloudOpts, auction_timeout_ms: Option<u64>) -> (r:
    CtlClientConfig)
    ensures
        r.lattice_prefix == opts.lattice_prefix,
        r.rpc_timeout_ms == opts.rpc_timeout_ms,
        auction_timeout_ms matches Some(t) ==> r.auction_timeout_ms == t,
        auction_timeout_ms is None ==> r.auction_timeout_ms == DEFAULT_NATS_TIMEOUT_MS,
        r.js_domain == opts.wasmcloud_js_domain,
{
    let auction = match auction_timeout_ms {
        Some(t) => t,
        None => DEFAULT_NATS_TIMEOUT_MS,
    };
    CtlClientConfig {
        lattice_prefix: opts.lattice_prefix.clone(),
        rpc_timeout_ms: opts.rpc_timeout_ms,
        auction_timeout_ms: auction,
        js_domain: opts.wasmcloud_js_domain.clone(),
    }
}

} // verus!
