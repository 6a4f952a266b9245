//! The version gate: a requested component version is checked against the
//! minimum supported release. Unparsable strings and prerelease versions are
//! accepted (the caller is expected to surface a warning); a parsed release
//! below the floor is rejected with an error naming both versions.

use vstd::prelude::*;

verus! {

use vstd::string::StrSliceExecFns;
use vstd::string::StringExecFns;
use crate::strutil::strip_leading;
use crate::strutil::strip_prefix_chars;

/// Versions below this floor use an incompatible release format.
pub const MINIMUM_WASMCLOUD_VERSION: &'static str = "0.63.0";

pub const MINIMUM_MAJOR: u64 = 0;

pub const MINIMUM_MINOR: u64 = 63;

pub const MINIMUM_PATCH: u64 = 0;

/// What `semver::Version::parse` makes of a string: the numeric triple and
/// the prerelease identifier, or `None` where the string is not a semantic
/// version.
pub uninterp spec fn semver_parse(s: Seq<char>) -> Option<(u64, u64, u64, Seq<char>)>;

/// Relies on `semver::Version::parse` for the sole judgement of whether a
/// string is a well-formed semantic version, and on `semver::Prerelease::as_str`
/// for the prerelease identifier of a parsed version.
#[verifier::external_body]
fn parse_semver(s: &str) -> (r: Option<(u64, u64, u64, String)>)
    ensures
        match r {
            Some(t) => semver_parse(s@) == Some::<(u64, u64, u64, Seq<char>)>((t.0, t.1, t.2, t.3@)),
            None => semver_parse(s@) is None,
        },
{
    match semver::Version::parse(s) {
        Ok(v) => Some((v.major, v.minor, v.patch, v.pre.as_str().to_string())),
        Err(_) => None,
    }
}

/// Whether the numeric triple is at or above the minimum supported release.
/// For versions without a prerelease identifier this is exactly semantic
/// version ordering, which compares major, then minor, then patch.
pub open spec fn meets_floor(major: u64, minor: u64, patch: u64) -> bool {
    ||| major > MINIMUM_MAJOR
    ||| (major == MINIMUM_MAJOR && minor > MINIMUM_MINOR)
    ||| (major == MINIMUM_MAJOR && minor == MINIMUM_MINOR && patch >= MINIMUM_PATCH)
}

/// How an accepted version was classified; the latter two call for a warning.
#[derive(PartialEq, Eq, Structural, Clone, Copy, Debug)]
pub enum VersionAccept {
    Release,
    Prerelease,
    Unparsable,
}

/// A requested version below the supported floor.
#[derive(Debug)]
pub struct VersionError {
    pub requested: String,
    pub minimum: String,
}

impl Clone for VersionError {
    fn clone(&self) -> (r: VersionError)
        ensures
            r == *self,
    {
        VersionError { requested: self.requested.clone(), minimum: self.minimum.clone() }
    }
}

/// The text of a rejection: it names the requested version and the floor.
pub open spec fn version_error_message(requested: Seq<char>, minimum: Seq<char>) -> Seq<char> {
    "wasmCloud version "@ + requested
        + " is earlier than the minimum supported version of v"@ + minimum
}

impl VersionError {
    pub fn message(&self) -> (r: String)
        ensures
            r@ == version_error_message(self.requested@, self.minimum@),
    {
        let mut out = "wasmCloud version ".to_owned();
        out.append(self.requested.as_str());
        out.append(" is earlier than the minimum supported version of v");
        out.append(self.minimum.as_str());
        out
    }
}

/// Accepts or rejects a requested version. The string is first normalized by
/// stripping a leading `v` tag marker, then parsed as a semantic version.
/// An unparsable string is accepted (the later download simply fails), a
/// prerelease is accepted without a floor check, and a plain release is
/// accepted exactly when it is at or above the minimum supported version.
pub fn check_version(version: &str) -> (r: Result<VersionAccept, VersionError>)
    ensures
        ({
            let parsed = semver_parse(strip_leading(version@, 'v'));
            match r {
                Ok(VersionAccept::Unparsable) => parsed is None,
                Ok(VersionAccept::Prerelease) => parsed matches Some(t) && t.3.len() > 0,
                Ok(VersionAccept::Release) => parsed matches Some(t) && t.3.len() == 0
                    && meets_floor(t.0, t.1, t.2),
                Err(e) => parsed matches Some(t) && t.3.len() == 0 && !meets_floor(t.0, t.1, t.2)
                    && e.requested@ == version@ && e.minimum@ == MINIMUM_WASMCLOUD_VERSION@,
            }
        }),
{
    let trimmed = strip_prefix_chars(version, 'v');
    match parse_semver(trimmed) {
        None => Ok(VersionAccept::Unparsable),
        Some(t) => {
            if !t.3.as_str().is_empty() {
                Ok(VersionAccept::Prerelease)
            } else if t.0 > MINIMUM_MAJOR || (t.0 == MINIMUM_MAJOR && t.1 > MINIMUM_MINOR) || (
            t.0 == MINIMUM_MAJOR && t.1 == MINIMUM_MINOR && t.2 >= MINIMUM_PATCH) {
                Ok(VersionAccept::Release)
            } else {
                Err(
                    VersionError {
                        requested: version.to_owned(),
                        minimum: MINIMUM_WASMCLOUD_VERSION.to_owned(),
                    },
                )
            }
        },
    }
}

/// A rejection message always names both versions: the requested version and
/// the minimum appear verbatim inside the text.
pub proof fn lemma_rejection_names_both_versions(requested: Seq<char>, minimum: Seq<char>)
    ensures
        ({
            let msg = version_error_message(requested, minimum);
            let i = "wasmCloud version "@.len() as int;
            let j = i + requested.len() + " is earlier than the minimum supported version of v"@.len();
            &&& 0 <= i <= msg.len() - requested.len()
            &&& msg.subrange(i, i + requested.len()) == requested
            &&& 0 <= j <= msg.len() - minimum.len()
            &&& msg.subrange(j, j + minimum.len()) == minimum
        }),
{
    let msg = version_error_message(requested, minimum);
    let i = "wasmCloud version "@.len() as int;
    let j = i + requested.len() + " is earlier than the minimum supported version of v"@.len();
    assert(msg.subrange(i, i + requested.len()) =~= requested);
    assert(msg.subrange(j, j + minimum.len()) =~= minimum);
}

} // verus!
