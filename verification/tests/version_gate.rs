use wash_up::version::check_version;
use wash_up::version::VersionAccept;

#[test]
fn can_properly_deny_elixir_release_hosts() {
    // Ensure we allow versions >= 0.63.0
    assert!(check_version("v1.56.0").is_ok());
    assert!(check_version("v0.63.0").is_ok());
    assert!(check_version("v0.63.1").is_ok());
    assert!(check_version("v0.63.2").is_ok());
    assert!(check_version("v0.64.0").is_ok());
    assert!(check_version("v0.100.0").is_ok());
    assert!(check_version("v0.203.0").is_ok());

    // Ensure we allow prerelease tags for testing
    assert!(check_version("v0.64.0-rc.1").is_ok());
    assert!(check_version("v0.64.0-alpha.23").is_ok());
    assert!(check_version("v0.64.0-beta.0").is_ok());

    // Ensure we deny versions < 0.63.0
    assert!(check_version("v0.48.0").is_err());
    assert!(check_version("v0.56.0").is_err());
    assert!(check_version("v0.58.0").is_err());
    assert!(check_version("v0.62.3").is_err());
    assert!(check_version("v0.12.0").is_err());
    assert!(check_version("v0.56.999").is_err());
    if let Err(e) = check_version("v0.56.0") {
        assert_eq!(e.message(), "wasmCloud version v0.56.0 is earlier than the minimum supported version of v0.63.0");
    } else {
        panic!("v0.56.0 should be before the minimum version")
    }

    // The check_version will allow bad semantic versions, rather than failing immediately
    assert!(check_version("ungabunga").is_ok());
    assert!(check_version("v11.1").is_ok());
}

#[test]
fn gate_classifies_acceptances() {
    assert_eq!(check_version("v0.63.0").unwrap(), VersionAccept::Release);
    assert_eq!(check_version("v0.64.0-rc.1").unwrap(), VersionAccept::Prerelease);
    assert_eq!(check_version("v0.64.0-alpha.23").unwrap(), VersionAccept::Prerelease);
    assert_eq!(check_version("ungabunga").unwrap(), VersionAccept::Unparsable);
    assert_eq!(check_version("v11.1").unwrap(), VersionAccept::Unparsable);
    // The tag marker is stripped however often it occurs, and case matters.
    assert_eq!(check_version("0.63.0").unwrap(), VersionAccept::Release);
    assert_eq!(check_version("v10233.123.3.4").unwrap(), VersionAccept::Unparsable);
}

#[test]
fn rejection_names_both_versions() {
    let e = check_version("v0.56.0").unwrap_err();
    let msg = e.message();
    assert!(msg.contains("v0.56.0"));
    assert!(msg.contains("0.63.0"));
    assert_eq!(e.requested, "v0.56.0");
    assert_eq!(e.minimum, "0.63.0");
}
