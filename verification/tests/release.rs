use orbit::release::{
    archive_address, archive_file, checksums_address, exe_suffix, executable_in_archive,
    is_stale_binary, stale_binary_name, target_triple, API_URL, BASE_URL, RESPONSE_OKAY,
    STALE_PREFIX, USER_AGENT,
};
use orbit::version::Version;

#[test]
fn release_constants() {
    assert_eq!(RESPONSE_OKAY, 200);
    assert_eq!(API_URL, "https://api.github.com/repos/cdotrus/orbit/releases/latest");
    assert_eq!(BASE_URL, "https://github.com/cdotrus/orbit/releases");
    assert_eq!(USER_AGENT, "User-Agent: Orbit");
    assert_eq!(STALE_PREFIX, "orbit-");
}

#[test]
fn release_target_is_arch_and_os() {
    assert_eq!(target_triple("x86_64", "linux"), "x86_64-linux");
    assert_eq!(target_triple("aarch64", "macos"), "aarch64-macos");
    assert_eq!(target_triple("", ""), "-");
}

#[test]
fn release_suffix_follows_the_extension() {
    assert_eq!(exe_suffix(""), "");
    assert_eq!(exe_suffix("exe"), ".exe");
    assert_eq!(exe_suffix("com"), ".exe");
}

#[test]
fn release_file_names_and_addresses() {
    let v = Version::new(1, 1, 0);
    assert_eq!(archive_file(&v, "x86_64-linux"), "orbit-1.1.0-x86_64-linux.zip");
    assert_eq!(
        checksums_address(&v),
        "https://github.com/cdotrus/orbit/releases/download/1.1.0/orbit-1.1.0-checksums.txt"
    );
    assert_eq!(
        archive_address(&v, "x86_64-linux"),
        "https://github.com/cdotrus/orbit/releases/download/1.1.0/orbit-1.1.0-x86_64-linux.zip"
    );
    assert_eq!(
        executable_in_archive(&v, "x86_64-linux", ""),
        "orbit-1.1.0-x86_64-linux/bin/orbit"
    );
    assert_eq!(
        executable_in_archive(&Version::new(10, 20, 30), "x86_64-windows", ".exe"),
        "orbit-10.20.30-x86_64-windows/bin/orbit.exe"
    );
}

#[test]
fn release_stale_binaries_go_by_their_prefix() {
    assert_eq!(stale_binary_name(&Version::new(1, 0, 0)), "orbit-1.0.0");
    assert!(is_stale_binary("orbit-1.0.0"));
    assert!(is_stale_binary(&stale_binary_name(&Version::new(0, 9, 12))));
    assert!(is_stale_binary("orbit-"));
    assert!(is_stale_binary("orbit-anything.txt"));
    assert!(!is_stale_binary("orbit"));
    assert!(!is_stale_binary("orbit.exe"));
    assert!(!is_stale_binary("Orbit-1.0.0"));
    assert!(!is_stale_binary("my-orbit-1.0.0"));
    assert!(!is_stale_binary(""));
}
