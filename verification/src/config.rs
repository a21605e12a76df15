//! Where the tool lives on disk.

use vstd::prelude::*;

verus! {

/// The name of the directory, inside the application's data directory, that
/// holds the installed binary.
pub const CODEX_CLI_DIR_NAME: &'static str = "codex-cli";

/// The name of the scratch directory inside the install directory.
pub const SCRATCH_DIR_NAME: &'static str = "temp";

/// The argument that makes the binary print its version on one line.
pub const VERSION_QUERY: &'static str = "--version";

/// The argument that makes the binary print its usage; a binary that works
/// exits with success on it.
pub const HELP_QUERY: &'static str = "--help";

/// The environment variable whose presence counts as a credential.
pub const API_KEY_VARIABLE: &'static str = "OPENAI_API_KEY";

/// The extended attribute by which macOS marks downloaded files.
pub const QUARANTINE_ATTRIBUTE: &'static str = "com.apple.quarantine";

/// The channel on which installation progress is reported.
pub const PROGRESS_CHANNEL: &'static str = "codex-cli:install-progress";

/// The file mode of the installed binary: everyone may read and run it,
/// its owner may write it.
pub const EXECUTABLE_MODE: u32 = 0o755;

/// The file name of the installed binary.
pub open spec fn binary_file_name(windows: bool) -> Seq<char> {
    if windows {
        "codex.exe"@
    } else {
        "codex"@
    }
}

/// The file name of the installed binary: `codex`, on Windows `codex.exe`.
pub fn codex_cli_binary_name(windows: bool) -> (name: &'static str)
    ensures
        name@ == binary_file_name(windows),
{
    if windows {
        "codex.exe"
    } else {
        "codex"
    }
}

/// The binary to run: the installed one when a file exists at its path,
/// else whatever `codex` the search path offers.
pub open spec fn resolved_binary(embedded: Option<Seq<char>>, embedded_exists: bool) -> Seq<char> {
    match embedded {
        Some(path) => if embedded_exists {
            path
        } else {
            "codex"@
        },
        None => "codex"@,
    }
}

/// Chooses the binary to run for commands. `embedded` is the path of the
/// installed binary, if it could be determined, and `embedded_exists` tells
/// whether a file is there.
pub fn resolve_codex_binary(embedded: Option<String>, embedded_exists: bool) -> (binary: String)
    ensures
        binary@ == resolved_binary(crate::status::text_of(embedded), embedded_exists),
{
    match embedded {
        Some(path) => {
            if embedded_exists {
                path
            } else {
                "codex".to_owned()
            }
        },
        None => "codex".to_owned(),
    }
}

} // verus!
