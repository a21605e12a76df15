//! What is known of the installed binary, without changing anything.

use vstd::prelude::*;
use crate::error::{ErrorKind, ErrorKindView, InstallError, InstallErrorView, failure};
use crate::text::{trim, trimmed};
use crate::version::{extract_version_number, version_token};

verus! {

/// How an attempt to run the binary ended.
#[derive(Clone, Debug, PartialEq, Eq)]
pub enum RunOutcome {
    /// The process could not be started.
    NotStarted { reason: String },
    /// The process ran and exited; `success` tells whether with status zero.
    Exited { success: bool, stdout: String, stderr: String },
}

/// What was found at the path where the binary is installed.
#[derive(Clone, Debug, PartialEq, Eq)]
pub enum BinaryCheck {
    /// No file is there.
    Missing,
    /// A file is there, and this is how running it ended.
    Present { run: RunOutcome },
}

/// Whether the tool is installed, and which version.
#[derive(Clone, Debug, PartialEq, Eq)]
pub struct CodexCliStatus {
    /// Whether a file exists at the install path.
    pub installed: bool,
    /// The version the binary reports, when it could be asked.
    pub version: Option<String>,
    /// The install path, when a file exists there.
    pub path: Option<String>,
}

/// A [`CodexCliStatus`] as contracts see it.
pub struct CliStatusView {
    pub installed: bool,
    pub version: Option<Seq<char>>,
    pub path: Option<Seq<char>>,
}

/// The characters of an optional string.
pub open spec fn text_of(text: Option<String>) -> Option<Seq<char>> {
    match text {
        Some(t) => Some(t@),
        None => None,
    }
}

impl View for CodexCliStatus {
    type V = CliStatusView;

    open spec fn view(&self) -> CliStatusView {
        CliStatusView {
            installed: self.installed,
            version: text_of(self.version),
            path: text_of(self.path),
        }
    }
}

/// Whether the installed tool is ready for authenticated use.
#[derive(Clone, Debug, PartialEq, Eq)]
pub struct CodexAuthStatus {
    /// Whether a credential is at hand for a working binary.
    pub authenticated: bool,
    /// Why not, when it is not.
    pub error: Option<String>,
}

/// A [`CodexAuthStatus`] as contracts see it.
pub struct AuthStatusView {
    pub authenticated: bool,
    pub error: Option<Seq<char>>,
}

impl View for CodexAuthStatus {
    type V = AuthStatusView;

    open spec fn view(&self) -> AuthStatusView {
        AuthStatusView { authenticated: self.authenticated, error: text_of(self.error) }
    }
}

/// The install status that follows from a check of the binary with the
/// version query. A file at the path counts as installed whether or not it
/// runs; only a successful run yields a version.
pub open spec fn installed_status(binary_path: Seq<char>, check: BinaryCheck) -> CliStatusView {
    match check {
        BinaryCheck::Missing => CliStatusView { installed: false, version: None, path: None },
        BinaryCheck::Present { run } => CliStatusView {
            installed: true,
            version: match run {
                RunOutcome::Exited { success: true, stdout, stderr } => Some(
                    version_token(trimmed(stdout@)),
                ),
                _ => None,
            },
            path: Some(binary_path),
        },
    }
}

/// What the user is told when the binary works but no credential is set.
pub open spec fn missing_key_guidance() -> Seq<char> {
    "API key not set. Run 'codex login' or set OPENAI_API_KEY environment variable."@
}

/// The authentication status that follows from a check of the binary with
/// the help query and from whether the credential variable is set; the
/// failure when the binary could not be started at all.
pub open spec fn auth_status(check: BinaryCheck, has_api_key: bool) -> Result<
    AuthStatusView,
    InstallErrorView,
> {
    match check {
        BinaryCheck::Missing => Ok(
            AuthStatusView { authenticated: false, error: Some("not installed"@) },
        ),
        BinaryCheck::Present { run } => match run {
            RunOutcome::NotStarted { reason } => Err(
                failure(ErrorKindView::Io, "Failed to execute Codex CLI: "@, reason@),
            ),
            RunOutcome::Exited { success, stdout, stderr } => if success {
                Ok(
                    AuthStatusView {
                        authenticated: has_api_key,
                        error: if has_api_key {
                            None
                        } else {
                            Some(missing_key_guidance())
                        },
                    },
                )
            } else {
                Ok(AuthStatusView { authenticated: false, error: Some(trimmed(stderr@)) })
            },
        },
    }
}

/// Reports whether the tool is installed at `binary_path` and in which
/// version, from what a check with the version query found.
pub fn check_codex_cli_installed(binary_path: &str, check: &BinaryCheck) -> (status: CodexCliStatus)
    ensures
        status@ == installed_status(binary_path@, *check),
        status.path is Some <==> status.installed,
{
    match check {
        BinaryCheck::Missing => CodexCliStatus { installed: false, version: None, path: None },
        BinaryCheck::Present { run } => {
            let version = match run {
                RunOutcome::Exited { success, stdout, stderr } => {
                    if *success {
                        let line = trim(stdout.as_str());
                        Some(extract_version_number(line.as_str()))
                    } else {
                        None
                    }
                },
                RunOutcome::NotStarted { reason } => None,
            };
            CodexCliStatus { installed: true, version, path: Some(binary_path.to_owned()) }
        },
    }
}

/// Reports whether the installed tool is ready for authenticated use, from
/// what a check with the help query found and from whether the credential
/// variable is set.
pub fn check_codex_cli_auth(check: &BinaryCheck, has_api_key: bool) -> (status: Result<
    CodexAuthStatus,
    InstallError,
>)
    ensures
        match auth_status(*check, has_api_key) {
            Ok(expected) => status matches Ok(s) && s@ == expected,
            Err(expected) => status matches Err(e) && e@ == expected,
        },
{
    match check {
        BinaryCheck::Missing => Ok(
            CodexAuthStatus {
                authenticated: false,
                error: Some("not installed".to_owned()),
            },
        ),
        BinaryCheck::Present { run } => match run {
            RunOutcome::NotStarted { reason } => Err(
                InstallError::new(ErrorKind::Io, "Failed to execute Codex CLI: ", reason.as_str()),
            ),
            RunOutcome::Exited { success, stdout, stderr } => {
                if *success {
                    let error = if has_api_key {
                        None
                    } else {
                        Some(
                            "API key not set. Run 'codex login' or set OPENAI_API_KEY environment variable.".to_owned(),
                        )
                    };
                    Ok(CodexAuthStatus { authenticated: has_api_key, error })
                } else {
                    Ok(
                        CodexAuthStatus {
                            authenticated: false,
                            error: Some(trim(stderr.as_str())),
                        },
                    )
                }
            },
        },
    }
}

} // verus!
