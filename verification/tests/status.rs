use codex_cli::error::ErrorKind;
use codex_cli::status::{
    check_codex_cli_auth, check_codex_cli_installed, BinaryCheck, CodexAuthStatus, CodexCliStatus,
    RunOutcome,
};

fn exited(success: bool, stdout: &str, stderr: &str) -> BinaryCheck {
    BinaryCheck::Present {
        run: RunOutcome::Exited {
            success,
            stdout: stdout.to_string(),
            stderr: stderr.to_string(),
        },
    }
}

fn not_started(reason: &str) -> BinaryCheck {
    BinaryCheck::Present { run: RunOutcome::NotStarted { reason: reason.to_string() } }
}

#[test]
fn no_file_means_not_installed() {
    let status = check_codex_cli_installed("/data/codex-cli/codex", &BinaryCheck::Missing);
    assert_eq!(status, CodexCliStatus { installed: false, version: None, path: None });
}

#[test]
fn installed_with_its_version() {
    let status =
        check_codex_cli_installed("/data/codex-cli/codex", &exited(true, "codex-cli 0.31.0\n", ""));
    assert_eq!(
        status,
        CodexCliStatus {
            installed: true,
            version: Some("0.31.0".to_string()),
            path: Some("/data/codex-cli/codex".to_string()),
        }
    );
}

#[test]
fn installed_version_falls_back_to_the_trimmed_output() {
    let status = check_codex_cli_installed("codex", &exited(true, "  development build \n", ""));
    assert_eq!(status.version, Some("development build".to_string()));
    let status = check_codex_cli_installed("codex", &exited(true, "", ""));
    assert_eq!(status.version, Some(String::new()));
}

#[test]
fn installed_even_when_the_binary_does_not_run() {
    for check in [exited(false, "1.2.3", "boom"), not_started("exec format error")] {
        let status = check_codex_cli_installed("C:\\data\\codex.exe", &check);
        assert_eq!(
            status,
            CodexCliStatus {
                installed: true,
                version: None,
                path: Some("C:\\data\\codex.exe".to_string()),
            }
        );
    }
}

#[test]
fn path_is_reported_exactly_when_installed() {
    for check in [
        BinaryCheck::Missing,
        exited(true, "1.0.0", ""),
        exited(false, "", ""),
        not_started("x"),
    ] {
        let status = check_codex_cli_installed("p", &check);
        assert_eq!(status.path.is_some(), status.installed);
    }
}

#[test]
fn auth_without_the_binary() {
    for has_api_key in [false, true] {
        let status = check_codex_cli_auth(&BinaryCheck::Missing, has_api_key).unwrap();
        assert_eq!(
            status,
            CodexAuthStatus {
                authenticated: false,
                error: Some("not installed".to_string()),
            }
        );
    }
}

#[test]
fn auth_with_a_working_binary_and_a_key() {
    let status = check_codex_cli_auth(&exited(true, "usage", ""), true).unwrap();
    assert_eq!(status, CodexAuthStatus { authenticated: true, error: None });
}

#[test]
fn auth_with_a_working_binary_and_no_key() {
    let status = check_codex_cli_auth(&exited(true, "usage", ""), false).unwrap();
    assert_eq!(
        status,
        CodexAuthStatus {
            authenticated: false,
            error: Some(
                "API key not set. Run 'codex login' or set OPENAI_API_KEY environment variable."
                    .to_string()
            ),
        }
    );
}

#[test]
fn auth_with_a_broken_binary() {
    for has_api_key in [false, true] {
        let status =
            check_codex_cli_auth(&exited(false, "", "  dyld: library not loaded\n"), has_api_key)
                .unwrap();
        assert_eq!(
            status,
            CodexAuthStatus {
                authenticated: false,
                error: Some("dyld: library not loaded".to_string()),
            }
        );
    }
}

#[test]
fn auth_when_the_binary_cannot_be_started() {
    let error = check_codex_cli_auth(&not_started("permission denied"), true).unwrap_err();
    assert_eq!(error.kind, ErrorKind::Io);
    assert_eq!(error.message(), "Failed to execute Codex CLI: permission denied");
}
