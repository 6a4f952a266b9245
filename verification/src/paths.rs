//! The on-disk layout under the install root: each component's binary lives
//! in a version-scoped subdirectory, and log, pid and marker files sit at the
//! top level of the root. A binary's presence at its exact expected path is
//! the sole installation check, so the path computations here are the heart
//! of the provisioner's idempotence and isolation guarantees.

use vstd::prelude::*;

verus! {

use vstd::string::StrSliceExecFns;
use vstd::string::StringExecFns;
use crate::strutil::dec_digits;
use crate::strutil::u16_to_string;

/// The file name of the host binary inside its version directory.
pub const WASMCLOUD_HOST_BIN: &'static str = "wasmcloud_host";

/// Where the host binary of a given version is expected under the install
/// root: `<dir>/<version>/wasmcloud_host`.
pub open spec fn wasmcloud_binary_path_spec(dir: Seq<char>, version: Seq<char>) -> Seq<char> {
    dir + "/"@ + version + "/"@ + WASMCLOUD_HOST_BIN@
}

/// Computes the expected path of the host binary of `version` under `dir`.
pub fn wasmcloud_binary_path(dir: &str, version: &str) -> (r: String)
    ensures
        r@ == wasmcloud_binary_path_spec(dir@, version@),
{
    let mut out = dir.to_owned();
    out.append("/");
    out.append(version);
    out.append("/");
    out.append(WASMCLOUD_HOST_BIN);
    out
}

/// A top-level file of the install root: `<dir>/<name>`.
pub open spec fn root_file_spec(dir: Seq<char>, name: Seq<char>) -> Seq<char> {
    dir + "/"@ + name
}

fn root_file(dir: &str, name: &str) -> (r: String)
    ensures
        r@ == root_file_spec(dir@, name@),
{
    let mut out = dir.to_owned();
    out.append("/");
    out.append(name);
    out
}

/// The broker's captured output: `<dir>/nats.log`.
pub fn nats_log_path(dir: &str) -> (r: String)
    ensures
        r@ == root_file_spec(dir@, "nats.log"@),
{
    root_file(dir, "nats.log")
}

/// The broker's pid file: `<dir>/nats.pid`.
pub fn nats_pid_path(dir: &str) -> (r: String)
    ensures
        r@ == root_file_spec(dir@, "nats.pid"@),
{
    root_file(dir, "nats.pid")
}

/// The deployment manager's captured output: `<dir>/wadm.log`.
pub fn wadm_log_path(dir: &str) -> (r: String)
    ensures
        r@ == root_file_spec(dir@, "wadm.log"@),
{
    root_file(dir, "wadm.log")
}

/// The deployment manager's pid file: `<dir>/wadm.pid`.
pub fn wadm_pid_path(dir: &str) -> (r: String)
    ensures
        r@ == root_file_spec(dir@, "wadm.pid"@),
{
    root_file(dir, "wadm.pid")
}

/// The host's marker file, which records the running host's version string
/// for a later detached teardown: `<dir>/wasmcloud.pid`.
pub fn wasmcloud_pid_path(dir: &str) -> (r: String)
    ensures
        r@ == root_file_spec(dir@, "wasmcloud.pid"@),
{
    root_file(dir, "wasmcloud.pid")
}

/// The host's captured output, scoped by the dashboard port:
/// `<dir>/wasmcloud_<port>.log`.
pub open spec fn host_log_path_spec(dir: Seq<char>, port: u16) -> Seq<char> {
    dir + "/wasmcloud_"@ + dec_digits(port as nat) + ".log"@
}

pub fn host_log_path(dir: &str, port: u16) -> (r: String)
    ensures
        r@ == host_log_path_spec(dir@, port),
{
    let mut out = dir.to_owned();
    out.append("/wasmcloud_");
    let p = u16_to_string(port);
    out.append(p.as_str());
    out.append(".log");
    out
}

/// Two different versions of the host never share a binary path under the
/// same install root: the version-scoped subdirectories keep them apart, so
/// provisioning one version cannot disturb another.
pub proof fn lemma_version_paths_distinct(dir: Seq<char>, v1: Seq<char>, v2: Seq<char>)
    requires
        v1 != v2,
    ensures
        wasmcloud_binary_path_spec(dir, v1) != wasmcloud_binary_path_spec(dir, v2),
{
    let p1 = wasmcloud_binary_path_spec(dir, v1);
    let p2 = wasmcloud_binary_path_spec(dir, v2);
    if p1 == p2 {
        assert(p1.len() == dir.len() + "/"@.len() + v1.len() + "/"@.len()
            + WASMCLOUD_HOST_BIN@.len());
        assert(p2.len() == dir.len() + "/"@.len() + v2.len() + "/"@.len()
            + WASMCLOUD_HOST_BIN@.len());
        assert(v1.len() == v2.len());
        assert forall|i: int| 0 <= i < v1.len() implies v1[i] == v2[i] by {
            let k = dir.len() + "/"@.len() + i;
            assert(p1[k] == v1[i]);
            assert(p2[k] == v2[i]);
        }
        assert(v1 =~= v2);
    }
}

} // verus!
