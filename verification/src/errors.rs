//! The error taxonomy of the orchestration engine. Fatal errors carry enough
//! context (offending port, vendor response status, log path) for a caller to
//! diagnose them without reading source; each has a fixed message.

use vstd::prelude::*;

verus! {

use vstd::string::StrSliceExecFns;
use vstd::string::StringExecFns;
use crate::strutil::dec_digits;
use crate::strutil::u16_to_string;
use crate::version::version_error_message;
use crate::version::VersionError;

/// Everything that can abort or degrade an `up` invocation.
#[derive(Debug)]
pub enum UpError {
    /// A requested version below the supported floor.
    Version { error: VersionError },
    /// The vendor answered the artifact download with anything but a plain
    /// success: the URL and the status it answered with.
    DownloadFailed { url: String, status: u16 },
    /// The binary was still absent after the download was written.
    InstallVerificationFailed,
    /// No free port in the scanned range.
    NoFreePort,
    /// The caller supplied a port on which something already listens.
    PortOccupied { port: u16 },
    /// A child process could not be spawned.
    SpawnFailed { message: String },
    /// A started service never became ready within the bounded wait.
    ReadinessTimeout { label: String, log_path: String },
    /// The preflight connection to a remote broker failed, so the local
    /// leaf node was never started.
    RemoteConnectFailed { message: String },
    /// The mandatory broker connection (the one the host itself will need)
    /// could not be established.
    BrokerConnectFailed { message: String },
    /// Start-only was requested but no local binary is installed.
    StartOnlyMissingBinary,
    /// Provisioning a supporting service failed outside the download path.
    ProvisionFailed { message: String },
    /// A pid or marker file could not be written.
    FileWriteFailed { message: String },
}

/// The fixed message of each error.
pub open spec fn up_error_message_spec(e: UpError) -> Seq<char> {
    match e {
        UpError::Version { error } => version_error_message(error.requested@, error.minimum@),
        UpError::DownloadFailed { url, status } => "Failed to download wasmCloud host from "@
            + url@ + ". Status code: "@ + dec_digits(status as nat),
        UpError::InstallVerificationFailed =>
            "wasmCloud was not installed successfully, please see logs"@,
        UpError::NoFreePort => "Failed to find open port for host"@,
        UpError::PortOccupied { port } => "Supplied host port "@ + dec_digits(port as nat)
            + " already has a process listening"@,
        UpError::SpawnFailed { message } => "Failed to spawn process: "@ + message@,
        UpError::ReadinessTimeout { label, log_path } =>
            "wasmCloud host did not start. Failed to connect to "@ + label@
                + ". Check host-logs at "@ + log_path@,
        UpError::RemoteConnectFailed { message } => "Could not connect to leafnode remote: "@
            + message@,
        UpError::BrokerConnectFailed { message } => "Failed to create NATS client: "@ + message@,
        UpError::StartOnlyMissingBinary =>
            "wasmCloud was not installed, exiting without downloading as --wasmcloud-start-only was set"@,
        UpError::ProvisionFailed { message } => "Failed to provision binary: "@ + message@,
        UpError::FileWriteFailed { message } => "Failed to write file: "@ + message@,
    }
}

impl Clone for UpError {
    fn clone(&self) -> (r: UpError)
        ensures
            r == *self,
    {
        match self {
            UpError::Version { error } => UpError::Version { error: error.clone() },
            UpError::DownloadFailed { url, status } => UpError::DownloadFailed {
                url: url.clone(),
                status: *status,
            },
            UpError::InstallVerificationFailed => UpError::InstallVerificationFailed,
            UpError::NoFreePort => UpError::NoFreePort,
            UpError::PortOccupied { port } => UpError::PortOccupied { port: *port },
            UpError::SpawnFailed { message } => UpError::SpawnFailed { message: message.clone() },
            UpError::ReadinessTimeout { label, log_path } => UpError::ReadinessTimeout {
                label: label.clone(),
                log_path: log_path.clone(),
            },
            UpError::RemoteConnectFailed { message } => UpError::RemoteConnectFailed {
                message: message.clone(),
            },
            UpError::BrokerConnectFailed { message } => UpError::BrokerConnectFailed {
                message: message.clone(),
            },
            UpError::StartOnlyMissingBinary => UpError::StartOnlyMissingBinary,
            UpError::ProvisionFailed { message } => UpError::ProvisionFailed {
                message: message.clone(),
            },
            UpError::FileWriteFailed { message } => UpError::FileWriteFailed {
                message: message.clone(),
            },
        }
    }
}

impl UpError {
    /// Renders the error for display.
    pub fn message(&self) -> (r: String)
        ensures
            r@ == up_error_message_spec(*self),
    {
        match self {
            UpError::Version { error } => error.message(),
            UpError::DownloadFailed { url, status } => {
                let mut out = "Failed to download wasmCloud host from ".to_owned();
                out.append(url.as_str());
                out.append(". Status code: ");
                let s = u16_to_string(*status);
                out.append(s.as_str());
                out
            },
            UpError::InstallVerificationFailed => {
                "wasmCloud was not installed successfully, please see logs".to_owned()
            },
            UpError::NoFreePort => "Failed to find open port for host".to_owned(),
            UpError::PortOccupied { port } => {
                let mut out = "Supplied host port ".to_owned();
                let s = u16_to_string(*port);
                out.append(s.as_str());
                out.append(" already has a process listening");
                out
            },
            UpError::SpawnFailed { message } => {
                let mut out = "Failed to spawn process: ".to_owned();
                out.append(message.as_str());
                out
            },
            UpError::ReadinessTimeout { label, log_path } => {
                let mut out = "wasmCloud host did not start. Failed to connect to ".to_owned();
                out.append(label.as_str());
                out.append(". Check host-logs at ");
                out.append(log_path.as_str());
                out
            },
            UpError::RemoteConnectFailed { message } => {
                let mut out = "Could not connect to leafnode remote: ".to_owned();
                out.append(message.as_str());
                out
            },
            UpError::BrokerConnectFailed { message } => {
                let mut out = "Failed to create NATS client: ".to_owned();
                out.append(message.as_str());
                out
            },
            UpError::StartOnlyMissingBinary => {
                "wasmCloud was not installed, exiting without downloading as --wasmcloud-start-only was set".to_owned()
            },
            UpError::ProvisionFailed { message } => {
                let mut out = "Failed to provision binary: ".to_owned();
                out.append(message.as_str());
                out
            },
            UpError::FileWriteFailed { message } => {
                let mut out = "Failed to write file: ".to_owned();
                out.append(message.as_str());
                out
            },
        }
    }
}

} // verus!
