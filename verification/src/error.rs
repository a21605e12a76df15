//! What can end an operation early.

use vstd::prelude::*;

verus! {

/// The ways an operation of this library can fail. None is retried from
/// within: the caller decides whether to try again.
#[derive(Clone, Debug, PartialEq, Eq)]
pub enum ErrorKind {
    /// The host's operating system and processor are not in the release matrix.
    UnsupportedPlatform,
    /// Sessions are running the installed binary, so it must not be replaced.
    Busy { count: usize },
    /// The request never got an answer.
    Network,
    /// The server answered with a status outside the success range.
    Http { status: u16 },
    /// The answer's body was not what the catalog promises.
    Parse,
    /// The archive could not be opened or decoded.
    ArchiveCorrupt,
    /// The archive was unpacked but holds no binary for this platform.
    BinaryNotFoundInArchive,
    /// The file system refused something.
    Io,
    /// The binary could not be made executable.
    Permission,
    /// The installed binary did not answer the version query; `stderr` is
    /// what it wrote to its error output, if it ran at all.
    VerificationFailed { stderr: String },
}

/// An [`ErrorKind`] as contracts see it.
pub enum ErrorKindView {
    UnsupportedPlatform,
    Busy { count: usize },
    Network,
    Http { status: u16 },
    Parse,
    ArchiveCorrupt,
    BinaryNotFoundInArchive,
    Io,
    Permission,
    VerificationFailed { stderr: Seq<char> },
}

impl View for ErrorKind {
    type V = ErrorKindView;

    open spec fn view(&self) -> ErrorKindView {
        match *self {
            ErrorKind::UnsupportedPlatform => ErrorKindView::UnsupportedPlatform,
            ErrorKind::Busy { count } => ErrorKindView::Busy { count },
            ErrorKind::Network => ErrorKindView::Network,
            ErrorKind::Http { status } => ErrorKindView::Http { status },
            ErrorKind::Parse => ErrorKindView::Parse,
            ErrorKind::ArchiveCorrupt => ErrorKindView::ArchiveCorrupt,
            ErrorKind::BinaryNotFoundInArchive => ErrorKindView::BinaryNotFoundInArchive,
            ErrorKind::Io => ErrorKindView::Io,
            ErrorKind::Permission => ErrorKindView::Permission,
            ErrorKind::VerificationFailed { stderr } => ErrorKindView::VerificationFailed {
                stderr: stderr@,
            },
        }
    }
}

impl ErrorKind {
    /// A copy of this kind.
    pub fn copy(&self) -> (kind: ErrorKind)
        ensures
            kind@ == self@,
    {
        match self {
            ErrorKind::UnsupportedPlatform => ErrorKind::UnsupportedPlatform,
            ErrorKind::Busy { count } => ErrorKind::Busy { count: *count },
            ErrorKind::Network => ErrorKind::Network,
            ErrorKind::Http { status } => ErrorKind::Http { status: *status },
            ErrorKind::Parse => ErrorKind::Parse,
            ErrorKind::ArchiveCorrupt => ErrorKind::ArchiveCorrupt,
            ErrorKind::BinaryNotFoundInArchive => ErrorKind::BinaryNotFoundInArchive,
            ErrorKind::Io => ErrorKind::Io,
            ErrorKind::Permission => ErrorKind::Permission,
            ErrorKind::VerificationFailed { stderr } => ErrorKind::VerificationFailed {
                stderr: stderr.clone(),
            },
        }
    }
}

/// A failure: its kind, and the sentence shown to the user.
#[derive(Clone, Debug, PartialEq, Eq)]
pub struct InstallError {
    pub kind: ErrorKind,
    pub message: String,
}

/// An [`InstallError`] as contracts see it.
pub struct InstallErrorView {
    pub kind: ErrorKindView,
    pub message: Seq<char>,
}

impl View for InstallError {
    type V = InstallErrorView;

    open spec fn view(&self) -> InstallErrorView {
        InstallErrorView { kind: self.kind@, message: self.message@ }
    }
}

/// The failure of the given kind whose sentence is `prefix` followed by
/// `detail`.
pub open spec fn failure(
    kind: ErrorKindView,
    prefix: Seq<char>,
    detail: Seq<char>,
) -> InstallErrorView {
    InstallErrorView { kind, message: prefix + detail }
}

impl InstallError {
    /// A failure of the given kind whose sentence is `prefix` followed by
    /// `detail`.
    pub fn new(kind: ErrorKind, prefix: &str, detail: &str) -> (e: InstallError)
        ensures
            e@ == failure(kind@, prefix@, detail@),
    {
        InstallError { kind, message: crate::text::join(prefix, detail) }
    }

    /// A failure of the given kind with a fixed sentence.
    pub fn fixed(kind: ErrorKind, message: &str) -> (e: InstallError)
        ensures
            e@ == (InstallErrorView { kind: kind@, message: message@ }),
    {
        InstallError { kind, message: message.to_owned() }
    }

    /// A copy of this failure.
    pub fn copy(&self) -> (e: InstallError)
        ensures
            e@ == self@,
    {
        InstallError { kind: self.kind.copy(), message: self.message.clone() }
    }

    /// The sentence shown to the user.
    pub fn message(&self) -> (text: String)
        ensures
            text@ == self@.message,
    {
        self.message.clone()
    }
}

} // verus!
