use privileges::elevation::{
    check_admin_privileges, launch_succeeded, request_admin_privileges, ElevationStep,
    ShellExecuteRequest, SHOW_NORMAL,
};
use privileges::platform::{platform_from_os, unsupported_platform_message, Platform};
use privileges::wide::to_wide_nul;

fn launch_request(r: Result<ElevationStep, String>) -> ShellExecuteRequest {
    match r {
        Ok(ElevationStep::Launch(req)) => req,
        Ok(ElevationStep::Finished(b)) => panic!("expected a launch, got Finished({})", b),
        Err(m) => panic!("expected a launch, got Err({})", m),
    }
}

fn wide(s: &str) -> Vec<u16> {
    s.encode_utf16().chain(Some(0)).collect()
}

#[test]
fn platform_names_are_recognised() {
    assert!(matches!(platform_from_os("windows"), Platform::Windows));
    assert!(matches!(platform_from_os("macos"), Platform::MacOs));
    assert!(matches!(platform_from_os("linux"), Platform::Linux));
    match platform_from_os("freebsd") {
        Platform::Unsupported(name) => assert_eq!(name, "freebsd"),
        _ => panic!("freebsd is not a handled platform"),
    }
    assert!(matches!(platform_from_os("Linux"), Platform::Unsupported(_)));
    assert!(matches!(platform_from_os(""), Platform::Unsupported(_)));
}

#[test]
fn windows_check_reports_token_state() {
    assert_eq!(check_admin_privileges(&Platform::Windows, true), Ok(true));
    assert_eq!(check_admin_privileges(&Platform::Windows, false), Ok(false));
}

#[test]
fn macos_and_linux_check_is_always_false() {
    for elevated in [true, false] {
        assert_eq!(check_admin_privileges(&Platform::MacOs, elevated), Ok(false));
        assert_eq!(check_admin_privileges(&Platform::Linux, elevated), Ok(false));
    }
}

#[test]
fn unsupported_platform_check_fails_naming_os() {
    let p = platform_from_os("haiku");
    let r = check_admin_privileges(&p, true);
    let m = r.unwrap_err();
    assert!(m.contains("haiku"));
    assert_eq!(m, "不支持的操作系统: haiku");
}

#[test]
fn unsupported_platform_request_fails_naming_os() {
    let p = platform_from_os("solaris");
    match request_admin_privileges(&p, "C:\\app.exe") {
        Err(m) => {
            assert!(m.contains("solaris"));
            assert_eq!(m, "不支持的操作系统: solaris");
        }
        Ok(_) => panic!("an unsupported platform must fail"),
    }
}

#[test]
fn unsupported_message_text() {
    assert_eq!(unsupported_platform_message("netbsd"), "不支持的操作系统: netbsd");
    assert_eq!(unsupported_platform_message(""), "不支持的操作系统: ");
}

#[test]
fn macos_and_linux_request_is_false() {
    for p in [Platform::MacOs, Platform::Linux] {
        match request_admin_privileges(&p, "/usr/bin/app") {
            Ok(ElevationStep::Finished(b)) => assert!(!b),
            _ => panic!("expected Finished(false)"),
        }
    }
}

#[test]
fn windows_request_runs_as_administrator() {
    let req = launch_request(request_admin_privileges(&Platform::Windows, "C:\\Tools\\app.exe"));
    assert_eq!(req.operation, vec![114u16, 117, 110, 97, 115, 0]);
    assert_eq!(req.file, wide("C:\\Tools\\app.exe"));
    assert!(req.parameters.is_none());
    assert!(req.directory.is_none());
    assert_eq!(req.show_command, SHOW_NORMAL);
    assert_eq!(SHOW_NORMAL, 1);
}

#[test]
fn windows_request_for_missing_file_reads_false() {
    let req = launch_request(request_admin_privileges(
        &Platform::Windows,
        "C:\\does\\not\\exist\\nothing.exe",
    ));
    assert_eq!(req.file, wide("C:\\does\\not\\exist\\nothing.exe"));
    // ERROR_FILE_NOT_FOUND
    assert!(!launch_succeeded(2));
}

#[test]
fn windows_request_with_empty_path() {
    let req = launch_request(request_admin_privileges(&Platform::Windows, ""));
    assert_eq!(req.file, vec![0u16]);
}

#[test]
fn launch_code_threshold() {
    assert!(!launch_succeeded(0));
    assert!(!launch_succeeded(2));
    // SE_ERR_ACCESSDENIED, which the shell also returns when the prompt is declined
    assert!(!launch_succeeded(5));
    assert!(!launch_succeeded(32));
    assert!(launch_succeeded(33));
    assert!(launch_succeeded(4096));
    assert!(!launch_succeeded(-1));
    assert!(!launch_succeeded(isize::MIN));
    assert!(launch_succeeded(isize::MAX));
}

#[test]
fn wide_encoding_of_ascii_and_bmp() {
    assert_eq!(to_wide_nul("ab"), vec![97u16, 98, 0]);
    assert_eq!(to_wide_nul(""), vec![0u16]);
    assert_eq!(to_wide_nul("程序"), vec![0x7A0Bu16, 0x5E8F, 0]);
    assert_eq!(to_wide_nul("\u{FFFF}"), vec![0xFFFFu16, 0]);
}

#[test]
fn wide_encoding_of_supplementary_characters() {
    assert_eq!(to_wide_nul("\u{1F600}"), vec![0xD83Du16, 0xDE00, 0]);
    assert_eq!(to_wide_nul("\u{10000}"), vec![0xD800u16, 0xDC00, 0]);
    assert_eq!(to_wide_nul("\u{10FFFF}"), vec![0xDBFFu16, 0xDFFF, 0]);
    let s = "C:\\😀\\é.exe";
    assert_eq!(to_wide_nul(s), wide(s));
}

#[test]
fn repeated_checks_agree() {
    for p in [
        Platform::Windows,
        Platform::MacOs,
        Platform::Linux,
        Platform::Unsupported(String::from("plan9")),
    ] {
        for elevated in [true, false] {
            let first = check_admin_privileges(&p, elevated);
            let second = check_admin_privileges(&p, elevated);
            assert_eq!(first, second);
        }
    }
}
