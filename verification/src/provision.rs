//! The binary provisioner, as an event-driven machine: the caller performs
//! the file probes, the HTTP download and the disk write, and feeds the
//! outcomes back; every decision in between is made here. The expected
//! binary path is probed first and its presence alone ends the run (no
//! checksum, no re-download); otherwise the version check and the release
//! resolver run, the download status is judged (only a plain 200 is a
//! success; any other status is a hard failure naming the URL), and a
//! final probe of the path decides between success and a verification
//! failure. A second entry point downloads unconditionally, without the
//! probe and without the version check, as an explicit re-fetch.

use vstd::prelude::*;

verus! {

use crate::errors::UpError;
use crate::paths::wasmcloud_binary_path;
use crate::paths::wasmcloud_binary_path_spec;
use crate::release::wasmcloud_url;
use crate::release::wasmcloud_url_spec;
use crate::strutil::strip_leading;
use crate::version::check_version;
use crate::version::meets_floor;
use crate::version::semver_parse;
use crate::version::VersionAccept;
use crate::version::MINIMUM_WASMCLOUD_VERSION;

/// How a provisioning run ended well: the binary's path, and how the
/// version check classified the version (`None` where an already-installed
/// binary or an unconditional download made that check unnecessary). A
/// non-`Release` classification calls for a warning.
#[derive(Debug)]
pub struct ProvisionOutcome {
    pub path: String,
    pub gate: Option<VersionAccept>,
}

/// Where a provisioning run stands.
pub enum ProvisionState {
    /// The expected path is being probed for an existing binary.
    Probing { os: String, arch: String, version: String, root: String, path: String },
    /// The artifact is being fetched from `url`; the next event is the
    /// response status.
    Downloading { path: String, url: String, gate: Option<VersionAccept> },
    /// The response body is being streamed to disk.
    Saving { path: String, gate: Option<VersionAccept> },
    /// The written path is being re-probed to guard against partial writes.
    Verifying { path: String, gate: Option<VersionAccept> },
    /// The binary is in place.
    Done { path: String, gate: Option<VersionAccept> },
    /// The run failed; nothing more happens.
    Failed { error: UpError },
}

/// What the caller reports back.
pub enum ProvisionEvent {
    /// Whether a file exists at the probed path.
    FileProbed { exists: bool },
    /// The HTTP status of the download response.
    DownloadStatus { status: u16 },
    /// The response body has been handed to the filesystem (successfully or
    /// not; the closing probe is the judge either way).
    BodySaved,
}

/// What the caller must do next.
pub enum ProvisionAction {
    /// Probe whether a file exists at `path`.
    ProbeFile { path: String },
    /// Issue the download request and report its response status.
    HttpGet { url: String },
    /// Stream the response body to `path`, creating parent directories and
    /// marking the file executable, then report back.
    SaveBody { path: String },
    /// The run is over.
    Finish { result: Result<ProvisionOutcome, UpError> },
}

/// A probing state carries the path it was started with.
pub open spec fn provision_wf(s: ProvisionState) -> bool {
    s matches ProvisionState::Probing { version, root, path, .. } ==> path@
        == wasmcloud_binary_path_spec(root@, version@)
}

/// Which event a state waits for.
pub open spec fn provision_expects(s: ProvisionState, e: ProvisionEvent) -> bool {
    match s {
        ProvisionState::Probing { .. } => e matches ProvisionEvent::FileProbed { .. },
        ProvisionState::Downloading { .. } => e matches ProvisionEvent::DownloadStatus { .. },
        ProvisionState::Saving { .. } => e matches ProvisionEvent::BodySaved,
        ProvisionState::Verifying { .. } => e matches ProvisionEvent::FileProbed { .. },
        ProvisionState::Done { .. } => false,
        ProvisionState::Failed { .. } => false,
    }
}

/// How the version check classifies a version string: the acceptance
/// class, or `None` where the version is rejected as below the floor.
pub open spec fn gate_classification(version: Seq<char>) -> Option<VersionAccept> {
    match semver_parse(strip_leading(version, 'v')) {
        None => Some(VersionAccept::Unparsable),
        Some(t) => if t.3.len() > 0 {
            Some(VersionAccept::Prerelease)
        } else if meets_floor(t.0, t.1, t.2) {
            Some(VersionAccept::Release)
        } else {
            None
        },
    }
}

/// The transition relation of the provisioner: what one reported event
/// makes of the state, and which action follows.
pub open spec fn provision_step_rel(
    s: ProvisionState,
    e: ProvisionEvent,
    s2: ProvisionState,
    a: ProvisionAction,
) -> bool {
    match (s, e) {
        (
            ProvisionState::Probing { os, arch, version, root, path },
            ProvisionEvent::FileProbed { exists },
        ) => {
            if exists {
                // The binary is already installed: its presence alone is the
                // installation check, and no download happens.
                &&& s2 matches ProvisionState::Done { path: p2, gate: None } && p2 == path
                &&& a matches ProvisionAction::Finish { result: Ok(out) } && out.path == path
                    && out.gate is None
            } else {
                match gate_classification(version@) {
                    None => {
                        // The version is below the floor: rejected before any
                        // network request.
                        &&& s2 matches ProvisionState::Failed { error: err1 }
                        &&& err1 matches UpError::Version { error: ve }
                        &&& ve.requested@ == version@
                        &&& ve.minimum@ == MINIMUM_WASMCLOUD_VERSION@
                        &&& a matches ProvisionAction::Finish { result: Err(e2) }
                        &&& e2 == err1
                    },
                    Some(g) => {
                        &&& s2 matches ProvisionState::Downloading { path: p2, url, gate }
                        &&& p2 == path
                        &&& gate == Some(g)
                        &&& url@ == wasmcloud_url_spec(os@, arch@, version@)
                        &&& a matches ProvisionAction::HttpGet { url: u2 }
                        &&& u2 == url
                    },
                }
            }
        },
        (
            ProvisionState::Downloading { path, url, gate },
            ProvisionEvent::DownloadStatus { status },
        ) => {
            if status == 200 {
                &&& s2 matches ProvisionState::Saving { path: p2, gate: g2 } && p2 == path && g2
                    == gate
                &&& a matches ProvisionAction::SaveBody { path: p3 } && p3 == path
            } else {
                // Anything but a plain 200 is a hard failure, before any
                // file is created; the error names the URL and the status.
                &&& s2 matches ProvisionState::Failed { error: err1 }
                &&& err1 matches UpError::DownloadFailed { url: u, status: st }
                &&& u == url
                &&& st == status
                &&& a matches ProvisionAction::Finish { result: Err(e2) }
                &&& e2 == err1
            }
        },
        (ProvisionState::Saving { path, gate }, ProvisionEvent::BodySaved) => {
            &&& s2 matches ProvisionState::Verifying { path: p2, gate: g2 } && p2 == path && g2
                == gate
            &&& a matches ProvisionAction::ProbeFile { path: p3 } && p3 == path
        },
        (ProvisionState::Verifying { path, gate }, ProvisionEvent::FileProbed { exists }) => {
            if exists {
                &&& s2 matches ProvisionState::Done { path: p2, gate: g2 } && p2 == path && g2
                    == gate
                &&& a matches ProvisionAction::Finish { result: Ok(out) } && out.path == path
                    && out.gate == gate
            } else {
                &&& s2 == (ProvisionState::Failed { error: UpError::InstallVerificationFailed })
                &&& a == (ProvisionAction::Finish {
                    result: Err::<ProvisionOutcome, UpError>(UpError::InstallVerificationFailed),
                })
            }
        },
        _ => false,
    }
}

/// Begins provisioning a host binary: the expected version-scoped path is
/// computed and probed first.
pub fn provision_start(os: &str, arch: &str, version: &str, root: &str) -> (r: (
    ProvisionState,
    ProvisionAction,
))
    ensures
        r.0 matches ProvisionState::Probing { os: o, arch: ar, version: v, root: rt, path: p }
            && o@ == os@ && ar@ == arch@ && v@ == version@ && rt@ == root@ && p@
            == wasmcloud_binary_path_spec(root@, version@),
        r.1 matches ProvisionAction::ProbeFile { path: p } && p@ == wasmcloud_binary_path_spec(
            root@,
            version@,
        ),
        provision_wf(r.0),
{
    let path = wasmcloud_binary_path(root, version);
    let state = ProvisionState::Probing {
        os: os.to_owned(),
        arch: arch.to_owned(),
        version: version.to_owned(),
        root: root.to_owned(),
        path: path.clone(),
    };
    (state, ProvisionAction::ProbeFile { path })
}

/// Begins an unconditional download of a host binary: no existence probe
/// and no version check — the artifact is fetched and written whatever is
/// already installed, exactly as an explicit re-fetch asks.
pub fn provision_download_start(os: &str, arch: &str, version: &str, root: &str) -> (r: (
    ProvisionState,
    ProvisionAction,
))
    ensures
        ({
            &&& r.0 matches ProvisionState::Downloading { path, url, gate: None }
            &&& path@ == wasmcloud_binary_path_spec(root@, version@)
            &&& url@ == wasmcloud_url_spec(os@, arch@, version@)
            &&& r.1 matches ProvisionAction::HttpGet { url: u2 }
            &&& u2 == url
        }),
        provision_wf(r.0),
{
    let path = wasmcloud_binary_path(root, version);
    let url = wasmcloud_url(os, arch, version);
    let state = ProvisionState::Downloading { path, url: url.clone(), gate: None };
    (state, ProvisionAction::HttpGet { url })
}

/// Advances the provisioner by one reported event.
pub fn provision_step(s: ProvisionState, e: ProvisionEvent) -> (r: (
    ProvisionState,
    ProvisionAction,
))
    requires
        provision_expects(s, e),
        provision_wf(s),
    ensures
        provision_step_rel(s, e, r.0, r.1),
        provision_wf(r.0),
{
    match (s, e) {
        (
            ProvisionState::Probing { os, arch, version, root, path },
            ProvisionEvent::FileProbed { exists },
        ) => {
            if exists {
                let out = ProvisionOutcome { path: path.clone(), gate: None };
                (
                    ProvisionState::Done { path, gate: None },
                    ProvisionAction::Finish { result: Ok(out) },
                )
            } else {
                match check_version(version.as_str()) {
                    Err(ve) => {
                        let error = UpError::Version { error: ve };
                        (
                            ProvisionState::Failed { error: error.clone() },
                            ProvisionAction::Finish { result: Err(error) },
                        )
                    },
                    Ok(g) => {
                        let url = wasmcloud_url(os.as_str(), arch.as_str(), version.as_str());
                        (
                            ProvisionState::Downloading {
                                path,
                                url: url.clone(),
                                gate: Some(g),
                            },
                            ProvisionAction::HttpGet { url },
                        )
                    },
                }
            }
        },
        (
            ProvisionState::Downloading { path, url, gate },
            ProvisionEvent::DownloadStatus { status },
        ) => {
            if status == 200 {
                (
                    ProvisionState::Saving { path: path.clone(), gate },
                    ProvisionAction::SaveBody { path },
                )
            } else {
                let error = UpError::DownloadFailed { url, status };
                (
                    ProvisionState::Failed { error: error.clone() },
                    ProvisionAction::Finish { result: Err(error) },
                )
            }
        },
        (ProvisionState::Saving { path, gate }, ProvisionEvent::BodySaved) => {
            (
                ProvisionState::Verifying { path: path.clone(), gate },
                ProvisionAction::ProbeFile { path },
            )
        },
        (ProvisionState::Verifying { path, gate }, ProvisionEvent::FileProbed { exists }) => {
            if exists {
                let out = ProvisionOutcome { path: path.clone(), gate };
                (
                    ProvisionState::Done { path, gate },
                    ProvisionAction::Finish { result: Ok(out) },
                )
            } else {
                (
                    ProvisionState::Failed { error: UpError::InstallVerificationFailed },
                    ProvisionAction::Finish { result: Err(UpError::InstallVerificationFailed) },
                )
            }
        },
        _ => {
            proof {
                assert(false);
            }
            (
                ProvisionState::Failed { error: UpError::InstallVerificationFailed },
                ProvisionAction::Finish { result: Err(UpError::InstallVerificationFailed) },
            )
        },
    }
}

/// Idempotence of provisioning: when the probe of the expected path finds
/// the binary, the run ends at once with that exact path and no download
/// request is ever issued. A second run over the same component, version
/// and root probes the same path, so it returns the identical path without
/// a request.
pub proof fn lemma_existing_binary_ends_run(
    s: ProvisionState,
    e: ProvisionEvent,
    s2: ProvisionState,
    a: ProvisionAction,
)
    requires
        provision_step_rel(s, e, s2, a),
        s matches ProvisionState::Probing { .. },
        e == (ProvisionEvent::FileProbed { exists: true }),
    ensures
        ({
            &&& s matches ProvisionState::Probing { path, .. }
            &&& s2 matches ProvisionState::Done { path: p2, gate: None }
            &&& p2 == path
            &&& a matches ProvisionAction::Finish { result: Ok(out) }
            &&& out.path == path
            &&& out.gate is None
        }),
        !(a is HttpGet),
{
}

/// Within a run, a download is only ever requested from the initial probe
/// of a missing binary, and no transition leads back to that probe: one
/// run performs at most one download.
pub proof fn lemma_at_most_one_download(
    s: ProvisionState,
    e: ProvisionEvent,
    s2: ProvisionState,
    a: ProvisionAction,
)
    requires
        provision_step_rel(s, e, s2, a),
    ensures
        a is HttpGet ==> (s matches ProvisionState::Probing { .. }) && e == (
        ProvisionEvent::FileProbed { exists: false }),
        !(s2 is Probing),
{
}

/// Only a plain 200 response is ever saved to disk: any other status ends
/// the run as a download failure naming the URL, before a file is written.
pub proof fn lemma_only_200_is_saved(
    s: ProvisionState,
    e: ProvisionEvent,
    s2: ProvisionState,
    a: ProvisionAction,
)
    requires
        provision_step_rel(s, e, s2, a),
    ensures
        a matches ProvisionAction::SaveBody { .. } ==> e == (ProvisionEvent::DownloadStatus {
            status: 200,
        }),
        ({
            &&& s matches ProvisionState::Downloading { url, .. }
            &&& e matches ProvisionEvent::DownloadStatus { status }
            &&& status != 200
        }) ==> ({
            &&& s matches ProvisionState::Downloading { url, .. }
            &&& e matches ProvisionEvent::DownloadStatus { status }
            &&& s2 matches ProvisionState::Failed { error }
            &&& error == (UpError::DownloadFailed { url, status })
            &&& a matches ProvisionAction::Finish { result: Err(e2) }
            &&& e2 == error
        }),
{
}

} // verus!
