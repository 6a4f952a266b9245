use wash_up::paths::host_log_path;
use wash_up::paths::nats_log_path;
use wash_up::paths::nats_pid_path;
use wash_up::paths::wadm_log_path;
use wash_up::paths::wadm_pid_path;
use wash_up::paths::wasmcloud_binary_path;
use wash_up::paths::wasmcloud_pid_path;
use wash_up::release::wasmcloud_url;

const BASE: &str = "https://github.com/wasmCloud/wasmcloud-otp/releases/download";

#[test]
fn can_construct_supported_wasmcloud_urls() {
    assert_eq!(
        wasmcloud_url("linux", "aarch64", "v0.63.0"),
        format!("{BASE}/v0.63.0/wasmcloud_host_aarch64_linux_gnu")
    );
    assert_eq!(
        wasmcloud_url("linux", "x86_64", "v0.63.0"),
        format!("{BASE}/v0.63.0/wasmcloud_host_x86_64_linux_gnu")
    );
    assert_eq!(
        wasmcloud_url("macos", "aarch64", "v0.63.0"),
        format!("{BASE}/v0.63.0/wasmcloud_host_aarch64_darwin")
    );
    assert_eq!(
        wasmcloud_url("macos", "x86_64", "v0.63.0"),
        format!("{BASE}/v0.63.0/wasmcloud_host_x86_64_darwin")
    );
    assert_eq!(
        wasmcloud_url("windows", "x86_64", "v0.63.0"),
        format!("{BASE}/v0.63.0/wasmcloud_host_x86_64_windows.exe")
    );
}

#[test]
fn unknown_platforms_pass_through() {
    // The resolver rewrites names lexically and validates nothing; an
    // uncovered platform simply yields a URL that will fail at download time.
    assert_eq!(
        wasmcloud_url("freebsd", "riscv64", "v0.63.0"),
        format!("{BASE}/v0.63.0/wasmcloud_host_riscv64_freebsd")
    );
}

#[test]
fn binary_paths_are_version_scoped() {
    assert_eq!(
        wasmcloud_binary_path("/tmp/wasmcloud", "v0.63.0"),
        "/tmp/wasmcloud/v0.63.0/wasmcloud_host"
    );
    // Two versions under one root live at distinct paths and cannot
    // disturb one another.
    let a = wasmcloud_binary_path("/tmp/wasmcloud", "v0.63.0");
    let b = wasmcloud_binary_path("/tmp/wasmcloud", "v0.63.1");
    assert_ne!(a, b);
}

#[test]
fn root_files_sit_at_the_top_level() {
    assert_eq!(nats_log_path("/r"), "/r/nats.log");
    assert_eq!(nats_pid_path("/r"), "/r/nats.pid");
    assert_eq!(wadm_log_path("/r"), "/r/wadm.log");
    assert_eq!(wadm_pid_path("/r"), "/r/wadm.pid");
    assert_eq!(wasmcloud_pid_path("/r"), "/r/wasmcloud.pid");
    assert_eq!(host_log_path("/r", 4000), "/r/wasmcloud_4000.log");
    assert_eq!(host_log_path("/r", 65535), "/r/wasmcloud_65535.log");
}
