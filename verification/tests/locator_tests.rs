use rathole_panel::locator::add_exec_bits;
use rathole_panel::locator::exe_name;
use rathole_panel::locator::installed_version;
use rathole_panel::locator::parse_version;
use rathole_panel::locator::permissions_report;
use rathole_panel::locator::resolve_path;
use rathole_panel::locator::VersionProbe;
use rathole_panel::Platform;

#[test]
fn version_is_second_token() {
    assert_eq!(parse_version("rathole 0.5.0"), "0.5.0");
}

#[test]
fn version_parsing_handles_extra_whitespace() {
    assert_eq!(parse_version("  rathole \t 1.2.3  extra"), "1.2.3");
    assert_eq!(parse_version("rathole\n0.4.0\n"), "0.4.0");
}

#[test]
fn version_without_second_token_is_unknown() {
    assert_eq!(parse_version("rathole"), "unknown");
    assert_eq!(parse_version(""), "unknown");
    assert_eq!(parse_version("   "), "unknown");
}

#[test]
fn installed_version_happy_path() {
    let probe = VersionProbe { success: true, stdout: String::from("rathole 0.5.0") };
    assert_eq!(installed_version(true, Ok(probe)), Ok(String::from("0.5.0")));
}

#[test]
fn installed_version_without_local_binary_is_an_error() {
    let probe = VersionProbe { success: true, stdout: String::from("rathole 0.5.0") };
    assert_eq!(
        installed_version(false, Ok(probe)),
        Err(String::from("No installed rathole found"))
    );
}

#[test]
fn installed_version_surfaces_invocation_error() {
    let r = installed_version(true, Err(String::from("permission denied")));
    assert_eq!(r, Err(String::from("permission denied")));
}

#[test]
fn failed_invocation_degrades_to_unknown() {
    let probe = VersionProbe { success: false, stdout: String::from("rathole 0.5.0") };
    assert_eq!(installed_version(true, Ok(probe)), Ok(String::from("unknown")));
    let garbled = VersionProbe { success: true, stdout: String::from("rathole") };
    assert_eq!(installed_version(true, Ok(garbled)), Ok(String::from("unknown")));
}

#[test]
fn local_copy_is_preferred() {
    assert_eq!(
        resolve_path("/data/app", true, Platform::Linux),
        "/data/app/rathole"
    );
    assert_eq!(
        resolve_path("C:\\data", true, Platform::Windows),
        "C:\\data\\rathole.exe"
    );
}

#[test]
fn missing_local_copy_falls_back_to_search_path() {
    assert_eq!(resolve_path("/data/app", false, Platform::Linux), "rathole");
    assert_eq!(resolve_path("C:\\data", false, Platform::Windows), "rathole");
}

#[test]
fn executable_is_named_for_the_platform() {
    assert_eq!(exe_name(Platform::Linux), "rathole");
    assert_eq!(exe_name(Platform::MacOs), "rathole");
    assert_eq!(exe_name(Platform::Windows), "rathole.exe");
}

#[test]
fn exec_bits_are_added_to_the_mode() {
    assert_eq!(add_exec_bits(0o644), 0o755);
    assert_eq!(add_exec_bits(0o755), 0o755);
    assert_eq!(add_exec_bits(0o600), 0o711);
}

#[test]
fn permission_fix_reports() {
    assert_eq!(
        permissions_report(Platform::Windows, false, None),
        Ok(String::from("Not needed on this platform"))
    );
    assert_eq!(
        permissions_report(Platform::Linux, false, None),
        Err(String::from("Rathole not found"))
    );
    assert_eq!(
        permissions_report(Platform::Linux, true, None),
        Ok(String::from("Permissions fixed"))
    );
    assert_eq!(
        permissions_report(Platform::MacOs, true, Some(String::from("read-only"))),
        Err(String::from("read-only"))
    );
}
