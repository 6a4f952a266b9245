//! The release resolver: maps an operating system, an architecture and a
//! version to the download URL of the matching host release artifact. This is
//! pure string construction; no combination is validated (an unpublished pair
//! simply fails at download time).

use vstd::prelude::*;

verus! {

use vstd::string::StrSliceExecFns;
use vstd::string::StringExecFns;
use crate::strutil::replace_all;
use crate::strutil::replace_seq;

/// Release artifacts are published under this base URL.
pub const WASMCLOUD_GITHUB_RELEASE_URL: &'static str =
    "https://github.com/wasmCloud/wasmcloud-otp/releases/download";

/// The vendor's artifact naming convention for an operating system name:
/// `macos` is published as `darwin`, `linux` as `linux_gnu`, and `windows`
/// artifacts carry an `.exe` suffix. Any other name passes through unchanged.
pub open spec fn os_tag(os: Seq<char>) -> Seq<char> {
    replace_seq(
        replace_seq(replace_seq(os, "macos"@, "darwin"@), "linux"@, "linux_gnu"@),
        "windows"@,
        "windows.exe"@,
    )
}

/// The download URL of the host release artifact for an os/arch pair and a
/// version.
pub open spec fn wasmcloud_url_spec(os: Seq<char>, arch: Seq<char>, version: Seq<char>) -> Seq<
    char,
> {
    WASMCLOUD_GITHUB_RELEASE_URL@ + "/"@ + version + "/wasmcloud_host_"@ + arch + "_"@ + os_tag(os)
}

/// Builds the release URL for an os/arch pair and a version.
pub fn wasmcloud_url(os: &str, arch: &str, version: &str) -> (r: String)
    ensures
        r@ == wasmcloud_url_spec(os@, arch@, version@),
{
    proof {
        reveal_strlit("macos");
        reveal_strlit("linux");
        reveal_strlit("windows");
    }
    let os2 = replace_all(os, "macos", "darwin");
    let os3 = replace_all(os2.as_str(), "linux", "linux_gnu");
    let os4 = replace_all(os3.as_str(), "windows", "windows.exe");
    let mut url = WASMCLOUD_GITHUB_RELEASE_URL.to_owned();
    url.append("/");
    url.append(version);
    url.append("/wasmcloud_host_");
    url.append(arch);
    url.append("_");
    url.append(os4.as_str());
    url
}

} // verus!
