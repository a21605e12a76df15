//! The release matrix: which asset a host downloads, and how it is packed.

use vstd::prelude::*;
use crate::error::{ErrorKind, ErrorKindView, InstallError, InstallErrorView};
use crate::text::str_eq;

verus! {

/// How a release asset is packed.
#[derive(Clone, Copy, Debug, PartialEq, Eq, Structural)]
pub enum ContainerFormat {
    Zip,
    TarGz,
}

impl ContainerFormat {
    /// The file extension of an asset in this format.
    pub open spec fn extension_text(self) -> Seq<char> {
        match self {
            ContainerFormat::Zip => "zip"@,
            ContainerFormat::TarGz => "tar.gz"@,
        }
    }

    /// The file extension of an asset in this format.
    pub fn extension(&self) -> (ext: &'static str)
        ensures
            ext@ == self.extension_text(),
    {
        match self {
            ContainerFormat::Zip => "zip",
            ContainerFormat::TarGz => "tar.gz",
        }
    }
}

/// A host for which releases are published.
#[derive(Clone, Copy, Debug, PartialEq, Eq, Structural)]
pub enum PlatformTarget {
    MacosArm64,
    MacosX64,
    LinuxX64,
    LinuxArm64,
    WindowsX64,
    WindowsArm64,
}

impl PlatformTarget {
    /// The identifier of this platform in asset names.
    pub open spec fn triple(self) -> Seq<char> {
        match self {
            PlatformTarget::MacosArm64 => "aarch64-apple-darwin"@,
            PlatformTarget::MacosX64 => "x86_64-apple-darwin"@,
            PlatformTarget::LinuxX64 => "x86_64-unknown-linux-musl"@,
            PlatformTarget::LinuxArm64 => "aarch64-unknown-linux-musl"@,
            PlatformTarget::WindowsX64 => "x86_64-pc-windows-msvc"@,
            PlatformTarget::WindowsArm64 => "aarch64-pc-windows-msvc"@,
        }
    }

    /// Windows hosts; their binaries carry the `.exe` suffix.
    pub open spec fn windows(self) -> bool {
        self == PlatformTarget::WindowsX64 || self == PlatformTarget::WindowsArm64
    }

    /// macOS hosts; downloads there are quarantined by the system.
    pub open spec fn macos(self) -> bool {
        self == PlatformTarget::MacosArm64 || self == PlatformTarget::MacosX64
    }

    /// Windows assets are zip files, all others gzip-compressed tarballs.
    pub open spec fn format(self) -> ContainerFormat {
        if self.windows() {
            ContainerFormat::Zip
        } else {
            ContainerFormat::TarGz
        }
    }

    /// The identifier of this platform in asset names.
    pub fn asset_triple(&self) -> (triple: &'static str)
        ensures
            triple@ == self.triple(),
    {
        match self {
            PlatformTarget::MacosArm64 => "aarch64-apple-darwin",
            PlatformTarget::MacosX64 => "x86_64-apple-darwin",
            PlatformTarget::LinuxX64 => "x86_64-unknown-linux-musl",
            PlatformTarget::LinuxArm64 => "aarch64-unknown-linux-musl",
            PlatformTarget::WindowsX64 => "x86_64-pc-windows-msvc",
            PlatformTarget::WindowsArm64 => "aarch64-pc-windows-msvc",
        }
    }

    /// How the assets of this platform are packed.
    pub fn container_format(&self) -> (format: ContainerFormat)
        ensures
            format == self.format(),
    {
        match self {
            PlatformTarget::WindowsX64 | PlatformTarget::WindowsArm64 => ContainerFormat::Zip,
            _ => ContainerFormat::TarGz,
        }
    }

    /// Whether this is a Windows host.
    pub fn is_windows(&self) -> (b: bool)
        ensures
            b == self.windows(),
    {
        match self {
            PlatformTarget::WindowsX64 | PlatformTarget::WindowsArm64 => true,
            _ => false,
        }
    }

    /// Whether this is a macOS host.
    pub fn is_macos(&self) -> (b: bool)
        ensures
            b == self.macos(),
    {
        match self {
            PlatformTarget::MacosArm64 | PlatformTarget::MacosX64 => true,
            _ => false,
        }
    }

    /// Whether file modes apply on this host: everywhere but on Windows.
    pub fn is_posix(&self) -> (b: bool)
        ensures
            b == !self.windows(),
    {
        !self.is_windows()
    }
}

/// The release matrix. `os` and `arch` are the names the Rust toolchain
/// gives the target's operating system and processor.
pub open spec fn platform_for(os: Seq<char>, arch: Seq<char>) -> Option<PlatformTarget> {
    if os == "macos"@ && arch == "aarch64"@ {
        Some(PlatformTarget::MacosArm64)
    } else if os == "macos"@ && arch == "x86_64"@ {
        Some(PlatformTarget::MacosX64)
    } else if os == "linux"@ && arch == "x86_64"@ {
        Some(PlatformTarget::LinuxX64)
    } else if os == "linux"@ && arch == "aarch64"@ {
        Some(PlatformTarget::LinuxArm64)
    } else if os == "windows"@ && arch == "x86_64"@ {
        Some(PlatformTarget::WindowsX64)
    } else if os == "windows"@ && arch == "aarch64"@ {
        Some(PlatformTarget::WindowsArm64)
    } else {
        None
    }
}

/// The failure reported for a host outside the release matrix.
pub open spec fn unsupported_platform() -> InstallErrorView {
    InstallErrorView { kind: ErrorKindView::UnsupportedPlatform, message: "Unsupported platform"@ }
}

/// The release target of a host, from the names of its operating system and
/// processor. A host outside the matrix is refused; nothing is guessed.
pub fn get_codex_platform(os: &str, arch: &str) -> (target: Result<PlatformTarget, InstallError>)
    ensures
        match platform_for(os@, arch@) {
            Some(p) => target == Ok::<PlatformTarget, InstallError>(p),
            None => target matches Err(e) && e@ == unsupported_platform(),
        },
{
    let macos = str_eq(os, "macos");
    let linux = str_eq(os, "linux");
    let windows = str_eq(os, "windows");
    let arm = str_eq(arch, "aarch64");
    let x64 = str_eq(arch, "x86_64");
    if macos && arm {
        Ok(PlatformTarget::MacosArm64)
    } else if macos && x64 {
        Ok(PlatformTarget::MacosX64)
    } else if linux && x64 {
        Ok(PlatformTarget::LinuxX64)
    } else if linux && arm {
        Ok(PlatformTarget::LinuxArm64)
    } else if windows && x64 {
        Ok(PlatformTarget::WindowsX64)
    } else if windows && arm {
        Ok(PlatformTarget::WindowsArm64)
    } else {
        Err(InstallError::fixed(ErrorKind::UnsupportedPlatform, "Unsupported platform"))
    }
}

} // verus!
