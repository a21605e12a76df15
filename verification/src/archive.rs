//! Release archives: what a zip file holds, what unpacking it writes, and
//! which of the unpacked files is the binary.

use vstd::prelude::*;
use crate::error::{ErrorKind, ErrorKindView, InstallError, InstallErrorView, failure};
use crate::platform::PlatformTarget;
use crate::status::text_of;
use crate::text::{chars_of, join};
use vstd::string::StringExecFns;

verus! {

/// The zip crate's reader over an archive.
#[verifier::external_type_specification]
#[verifier::external_body]
#[verifier::reject_recursive_types(R)]
pub struct ExZipArchive<R>(zip::ZipArchive<R>);

/// The standard library's in-memory reader.
#[verifier::external_type_specification]
#[verifier::external_body]
#[verifier::reject_recursive_types(T)]
pub struct ExCursor<T>(std::io::Cursor<T>);

/// The zip crate's error.
#[verifier::external_type_specification]
#[verifier::external_body]
pub struct ExZipError(zip::result::ZipError);

/// The standard library's I/O error.
#[verifier::external_type_specification]
#[verifier::external_body]
pub struct ExIoError(std::io::Error);

/// What a zip archive tells of one of its entries.
pub struct ZipEntryView {
    /// Whether the entry can be opened at all.
    pub readable: bool,
    /// The entry's path, if it stays inside the directory it is unpacked to.
    pub path: Option<Seq<char>>,
    /// Whether the entry stands for a directory.
    pub is_dir: bool,
    /// The entry's bytes, if they decode.
    pub content: Option<Seq<u8>>,
}

/// The entries of an opened archive, in the order of its central directory.
pub uninterp spec fn zip_entries(archive: zip::ZipArchive<std::io::Cursor<Vec<u8>>>) -> Seq<
    ZipEntryView,
>;

/// Whether the zip crate finds a central directory in the bytes and can
/// read it.
pub uninterp spec fn zip_opens(bytes: Seq<u8>) -> bool;

/// What the zip crate reads out of the bytes of an archive that opens: its
/// entries, in the order of the central directory.
pub uninterp spec fn zip_contents(bytes: Seq<u8>) -> Seq<ZipEntryView>;

/// What the flate2 crate decodes the bytes to as a gzip stream, if they
/// are one.
pub uninterp spec fn gzip_decoded(bytes: Seq<u8>) -> Option<Seq<u8>>;

/// `zip::ZipArchive::new` on a copy of the bytes. Whether it succeeds, and
/// what the archive then holds, depends on the bytes alone.
#[verifier::external_body]
fn zip_open(bytes: &[u8]) -> (opened: Result<
    zip::ZipArchive<std::io::Cursor<Vec<u8>>>,
    zip::result::ZipError,
>)
    ensures
        opened is Ok <==> zip_opens(bytes@),
        opened matches Ok(archive) ==> zip_entries(archive) == zip_contents(bytes@),
{
    zip::ZipArchive::new(std::io::Cursor::new(bytes.to_vec()))
}

/// `zip::ZipArchive::len`: the number of entries.
#[verifier::external_body]
fn zip_len(archive: &zip::ZipArchive<std::io::Cursor<Vec<u8>>>) -> (n: usize)
    ensures
        n == zip_entries(*archive).len(),
{
    archive.len()
}

/// `zip::ZipArchive::by_index`, then `enclosed_name` and `is_dir` of the
/// entry: its path, unless that is absolute or leaves the directory, and
/// whether it is a directory. Fails exactly for the entries that cannot be
/// opened. The archive holds afterwards what it held before.
#[verifier::external_body]
fn zip_entry_header(
    archive: &mut zip::ZipArchive<std::io::Cursor<Vec<u8>>>,
    index: usize,
) -> (header: Result<(Option<String>, bool), zip::result::ZipError>)
    requires
        index < zip_entries(*old(archive)).len(),
    ensures
        zip_entries(*final(archive)) == zip_entries(*old(archive)),
        header is Ok <==> zip_entries(*old(archive))[index as int].readable,
        header matches Ok(h) ==> text_of(h.0) == zip_entries(*old(archive))[index as int].path
            && h.1 == zip_entries(*old(archive))[index as int].is_dir,
{
    let file = archive.by_index(index)?;
    let path = file.enclosed_name().map(|p| p.to_string_lossy().into_owned());
    Ok((path, file.is_dir()))
}

/// `zip::ZipArchive::by_index`, then `read_to_end` on the entry: its bytes,
/// decompressed and checked. Fails exactly for the entries whose bytes do
/// not decode, with the I/O error that reading gave. The archive holds
/// afterwards what it held before.
#[verifier::external_body]
fn zip_entry_content(
    archive: &mut zip::ZipArchive<std::io::Cursor<Vec<u8>>>,
    index: usize,
) -> (content: Result<Vec<u8>, std::io::Error>)
    requires
        index < zip_entries(*old(archive)).len(),
    ensures
        zip_entries(*final(archive)) == zip_entries(*old(archive)),
        content is Ok <==> zip_entries(*old(archive))[index as int].content is Some,
        content matches Ok(bytes) ==> Some(bytes@) == zip_entries(
            *old(archive),
        )[index as int].content,
{
    let mut file = archive.by_index(index)?;
    let mut bytes = Vec::new();
    std::io::Read::read_to_end(&mut file, &mut bytes)?;
    Ok(bytes)
}

/// `flate2::read::GzDecoder::new` on the bytes, then `read_to_end` on the
/// decoder: the bytes of the first gzip member, decompressed and checked
/// against its trailer. Whether this succeeds, and with what, depends on
/// the bytes alone.
#[verifier::external_body]
fn gzip_decode(bytes: &[u8]) -> (decoded: Result<Vec<u8>, std::io::Error>)
    ensures
        decoded is Ok <==> gzip_decoded(bytes@) is Some,
        decoded matches Ok(plain) ==> Some(plain@) == gzip_decoded(bytes@),
{
    let mut decoder = flate2::read::GzDecoder::new(bytes);
    let mut plain = Vec::new();
    std::io::Read::read_to_end(&mut decoder, &mut plain)?;
    Ok(plain)
}

/// The standard library's description of an I/O error, as `Display` writes
/// it.
#[verifier::external_body]
fn io_error_text(error: &std::io::Error) -> (text: String) {
    format!("{}", error)
}

/// The zip crate's description of an error, as `Display` writes it.
#[verifier::external_body]
fn zip_error_text(error: &zip::result::ZipError) -> (text: String) {
    format!("{}", error)
}

/// One entry of a zip archive, as far as unpacking looks at it.
#[derive(Clone, Debug, PartialEq, Eq)]
pub enum ZipEntry {
    /// The entry cannot be opened.
    Unreadable { reason: String },
    /// The entry's path is absolute or leaves the directory.
    Unsafe,
    /// A directory.
    Directory { path: String },
    /// A file and its bytes.
    File { path: String, content: Vec<u8> },
    /// A file whose bytes do not decode.
    Damaged { path: String, reason: String },
}

impl ZipEntry {
    /// Whether this is the entry that the archive describes by `told`.
    /// An entry without a safe path is unsafe whatever else it is, a
    /// directory's bytes are not looked at, and the reasons are free text.
    pub open spec fn describes(self, told: ZipEntryView) -> bool {
        match self {
            ZipEntry::Unreadable { .. } => !told.readable,
            ZipEntry::Unsafe => told.readable && told.path is None,
            ZipEntry::Directory { path } => told.readable && told.path == Some(path@)
                && told.is_dir,
            ZipEntry::File { path, content } => told.readable && told.path == Some(path@)
                && !told.is_dir && told.content == Some(content@),
            ZipEntry::Damaged { path, .. } => told.readable && told.path == Some(path@)
                && !told.is_dir && told.content is None,
        }
    }

    /// Whether unpacking ends at this entry.
    pub open spec fn stops_unpacking(self) -> bool {
        self is Unreadable || self is Damaged
    }
}

/// Something to do in the scratch directory. Paths are relative to it.
#[derive(Clone, Debug, PartialEq, Eq)]
pub enum FsStep {
    /// Create the directory, and those above it.
    CreateDir { path: String },
    /// Create the directories above the file, then write the file.
    WriteFile { path: String, content: Vec<u8> },
}

/// An [`FsStep`] as contracts see it.
pub enum FsStepView {
    CreateDir { path: Seq<char> },
    WriteFile { path: Seq<char>, content: Seq<u8> },
}

impl View for FsStep {
    type V = FsStepView;

    open spec fn view(&self) -> FsStepView {
        match *self {
            FsStep::CreateDir { path } => FsStepView::CreateDir { path: path@ },
            FsStep::WriteFile { path, content } => FsStepView::WriteFile {
                path: path@,
                content: content@,
            },
        }
    }
}

/// What unpacking an archive comes to: the steps to perform, in order, and
/// the failure to report once they are done, if the archive broke off.
#[derive(Debug, PartialEq, Eq)]
pub struct ExtractionPlan {
    pub steps: Vec<FsStep>,
    pub failure: Option<InstallError>,
}

/// An [`ExtractionPlan`] as contracts see it.
pub struct PlanView {
    pub steps: Seq<FsStepView>,
    pub failure: Option<InstallErrorView>,
}

/// The view of each step.
pub open spec fn steps_view(steps: Seq<FsStep>) -> Seq<FsStepView> {
    steps.map_values(|step: FsStep| step@)
}

/// The view of an optional failure.
pub open spec fn failure_view(failure: Option<InstallError>) -> Option<InstallErrorView> {
    match failure {
        Some(error) => Some(error@),
        None => None,
    }
}

impl View for ExtractionPlan {
    type V = PlanView;

    open spec fn view(&self) -> PlanView {
        PlanView { steps: steps_view(self.steps@), failure: failure_view(self.failure) }
    }
}

/// The plan that does `first` and then what `rest` says.
pub open spec fn preceded_by(first: FsStepView, rest: PlanView) -> PlanView {
    PlanView { steps: seq![first] + rest.steps, failure: rest.failure }
}

/// The plan for a sequence of entries: a directory is created, a file is
/// written, an entry with an unsafe path is passed over, and the first entry
/// that cannot be opened or decoded ends the plan with a failure.
pub open spec fn planned(entries: Seq<ZipEntry>) -> PlanView
    decreases entries.len(),
{
    if entries.len() == 0 {
        PlanView { steps: Seq::empty(), failure: None }
    } else {
        match entries[0] {
            ZipEntry::Unreadable { reason } => PlanView {
                steps: Seq::empty(),
                failure: Some(
                    failure(ErrorKindView::ArchiveCorrupt, "Failed to read zip entry: "@, reason@),
                ),
            },
            ZipEntry::Damaged { path, reason } => PlanView {
                steps: Seq::empty(),
                failure: Some(
                    failure(ErrorKindView::ArchiveCorrupt, "Failed to extract file: "@, reason@),
                ),
            },
            ZipEntry::Unsafe => planned(entries.skip(1)),
            ZipEntry::Directory { path } => preceded_by(
                FsStepView::CreateDir { path: path@ },
                planned(entries.skip(1)),
            ),
            ZipEntry::File { path, content } => preceded_by(
                FsStepView::WriteFile { path: path@, content: content@ },
                planned(entries.skip(1)),
            ),
        }
    }
}

fn copy_bytes(bytes: &Vec<u8>) -> (copy: Vec<u8>)
    ensures
        copy@ == bytes@,
{
    let copy = bytes.clone();
    assert(copy@ =~= bytes@);
    copy
}

/// Plans the unpacking of the given entries.
pub fn plan_extraction(entries: &Vec<ZipEntry>) -> (plan: ExtractionPlan)
    ensures
        plan@ == planned(entries@),
{
    let mut steps: Vec<FsStep> = Vec::new();
    let mut i: usize = 0;
    assert(entries@.skip(0) =~= entries@);
    assert(steps_view(steps@) + planned(entries@).steps =~= planned(entries@).steps);
    while i < entries.len()
        invariant
            i <= entries.len(),
            planned(entries@).steps == steps_view(steps@) + planned(entries@.skip(i as int)).steps,
            planned(entries@).failure == planned(entries@.skip(i as int)).failure,
        decreases entries.len() - i,
    {
        let ghost before = steps_view(steps@);
        let ghost rest = planned(entries@.skip(i + 1));
        assert(entries@.skip(i as int)[0] == entries@[i as int]);
        assert(entries@.skip(i as int).skip(1) =~= entries@.skip(i + 1));
        match &entries[i] {
            ZipEntry::Unreadable { reason } => {
                assert(before + Seq::<FsStepView>::empty() =~= before);
                return ExtractionPlan {
                    steps,
                    failure: Some(
                        InstallError::new(
                            ErrorKind::ArchiveCorrupt,
                            "Failed to read zip entry: ",
                            reason.as_str(),
                        ),
                    ),
                };
            },
            ZipEntry::Damaged { path, reason } => {
                assert(before + Seq::<FsStepView>::empty() =~= before);
                return ExtractionPlan {
                    steps,
                    failure: Some(
                        InstallError::new(
                            ErrorKind::ArchiveCorrupt,
                            "Failed to extract file: ",
                            reason.as_str(),
                        ),
                    ),
                };
            },
            ZipEntry::Unsafe => {},
            ZipEntry::Directory { path } => {
                let step = FsStep::CreateDir { path: path.clone() };
                steps.push(step);
                assert(steps_view(steps@) =~= before.push(step@));
                assert(before.push(step@) + rest.steps =~= before + (seq![step@] + rest.steps));
            },
            ZipEntry::File { path, content } => {
                let step = FsStep::WriteFile { path: path.clone(), content: copy_bytes(content) };
                steps.push(step);
                assert(steps_view(steps@) =~= before.push(step@));
                assert(before.push(step@) + rest.steps =~= before + (seq![step@] + rest.steps));
            },
        }
        i += 1;
    }
    assert(steps_view(steps@) + Seq::<FsStepView>::empty() =~= steps_view(steps@));
    ExtractionPlan { steps, failure: None }
}

/// Whether `entries` is what reading `told` in order gives: each entry read
/// describes the entry told at its place, reading goes on past every entry
/// but one that ends unpacking, and ends early only at such an entry.
pub open spec fn is_reading_of(entries: Seq<ZipEntry>, told: Seq<ZipEntryView>) -> bool {
    &&& entries.len() <= told.len()
    &&& forall|i: int| 0 <= i < entries.len() ==> (#[trigger] entries[i]).describes(told[i])
    &&& forall|i: int| 0 <= i < entries.len() - 1 ==> !(#[trigger] entries[i]).stops_unpacking()
    &&& entries.len() < told.len() ==> entries.len() > 0 && entries[entries.len()
        - 1].stops_unpacking()
}

/// Reads entry `index` of the archive.
fn read_entry(archive: &mut zip::ZipArchive<std::io::Cursor<Vec<u8>>>, index: usize) -> (entry:
    ZipEntry)
    requires
        index < zip_entries(*old(archive)).len(),
    ensures
        zip_entries(*final(archive)) == zip_entries(*old(archive)),
        entry.describes(zip_entries(*old(archive))[index as int]),
{
    match zip_entry_header(archive, index) {
        Err(error) => ZipEntry::Unreadable { reason: zip_error_text(&error) },
        Ok((None, _)) => ZipEntry::Unsafe,
        Ok((Some(path), is_dir)) => {
            if is_dir {
                ZipEntry::Directory { path }
            } else {
                match zip_entry_content(archive, index) {
                    Ok(content) => ZipEntry::File { path, content },
                    Err(error) => ZipEntry::Damaged { path, reason: io_error_text(&error) },
                }
            }
        },
    }
}

/// Reads the entries of an archive in order, up to and including the first
/// at which unpacking ends.
pub fn read_entries(archive: &mut zip::ZipArchive<std::io::Cursor<Vec<u8>>>) -> (entries: Vec<
    ZipEntry,
>)
    ensures
        zip_entries(*final(archive)) == zip_entries(*old(archive)),
        is_reading_of(entries@, zip_entries(*old(archive))),
{
    let n = zip_len(archive);
    let mut entries: Vec<ZipEntry> = Vec::new();
    let mut i: usize = 0;
    while i < n
        invariant
            zip_entries(*archive) == zip_entries(*old(archive)),
            n == zip_entries(*archive).len(),
            i <= n,
            entries.len() == i,
            forall|k: int|
                0 <= k < i ==> (#[trigger] entries[k]).describes(zip_entries(*old(archive))[k]),
            forall|k: int| 0 <= k < i ==> !(#[trigger] entries[k]).stops_unpacking(),
        decreases n - i,
    {
        let entry = read_entry(archive, i);
        let stop = match &entry {
            ZipEntry::Unreadable { .. } => true,
            ZipEntry::Damaged { .. } => true,
            _ => false,
        };
        entries.push(entry);
        if stop {
            return entries;
        }
        i += 1;
    }
    entries
}

/// The failure reported for bytes that are no zip archive.
pub open spec fn not_a_zip_archive(error: InstallErrorView) -> bool {
    &&& error.kind == ErrorKindView::ArchiveCorrupt
    &&& error.message.len() >= "Failed to open zip archive: "@.len()
    &&& error.message.subrange(0, "Failed to open zip archive: "@.len() as int)
        == "Failed to open zip archive: "@
}

/// Whether `plan` is the plan for the entries `told`, read in order up to
/// the first that ends unpacking.
pub open spec fn is_plan_of(plan: PlanView, told: Seq<ZipEntryView>) -> bool {
    exists|entries: Seq<ZipEntry>|
        is_reading_of(entries, told) && plan == #[trigger] planned(entries)
}

/// Plans the unpacking of a zip archive given as bytes.
///
/// Bytes that do not open as an archive give a plan without steps that
/// fails at once. Otherwise the plan is the one for what the archive
/// holds: each directory is created and each file written under its own
/// path and with its own bytes, in archive order; an entry whose path would
/// leave the directory is passed over; the first entry that cannot be
/// opened or decoded ends the plan with a failure.
pub fn extract_zip(archive_content: &[u8]) -> (plan: ExtractionPlan)
    ensures
        !zip_opens(archive_content@) ==> plan@.steps.len() == 0 && (
        plan@.failure matches Some(error) && not_a_zip_archive(error)),
        zip_opens(archive_content@) ==> is_plan_of(plan@, zip_contents(archive_content@)),
        plan@.failure matches Some(error) ==> error.kind == ErrorKindView::ArchiveCorrupt,
{
    match zip_open(archive_content) {
        Err(error) => {
            let reason = zip_error_text(&error);
            let failure = InstallError::new(
                ErrorKind::ArchiveCorrupt,
                "Failed to open zip archive: ",
                reason.as_str(),
            );
            assert(failure@.message.subrange(0, "Failed to open zip archive: "@.len() as int)
                =~= "Failed to open zip archive: "@);
            ExtractionPlan { steps: Vec::new(), failure: Some(failure) }
        },
        Ok(archive) => {
            let mut archive = archive;
            let entries = read_entries(&mut archive);
            let plan = plan_extraction(&entries);
            proof {
                lemma_plan_fails_as_corrupt(entries@);
                assert(is_reading_of(entries@, zip_contents(archive_content@)) && plan@
                    == planned(entries@));
            }
            plan
        },
    }
}

/// A plan fails only because the archive is corrupt.
pub proof fn lemma_plan_fails_as_corrupt(entries: Seq<ZipEntry>)
    ensures
        planned(entries).failure matches Some(error) ==> error.kind == ErrorKindView::ArchiveCorrupt,
    decreases entries.len(),
{
    if entries.len() > 0 {
        lemma_plan_fails_as_corrupt(entries.skip(1));
    }
}

/// An entry at the top of the scratch directory.
#[derive(Clone, Debug, PartialEq, Eq)]
pub struct DirEntry {
    /// The entry's file name.
    pub name: String,
    /// Whether it is a regular file.
    pub is_file: bool,
}

/// What listing the top of the scratch directory gave.
#[derive(Debug, PartialEq, Eq)]
pub enum DirListing {
    Unreadable { reason: String },
    Entries { entries: Vec<DirEntry> },
}

/// The kinds of I/O error that the standard library tells apart; those
/// without a variant of their own are `Unlisted`.
#[derive(Clone, Copy, Debug, PartialEq, Eq, Structural)]
pub enum IoErrorKind {
    NotFound,
    PermissionDenied,
    AlreadyExists,
    InvalidInput,
    InvalidData,
    UnexpectedEof,
    WriteZero,
    Interrupted,
    Unsupported,
    OutOfMemory,
    Other,
    Unlisted,
}

/// Whether an error of this kind, met while unpacking, tells of an archive
/// that is damaged rather than of a file system that refused something:
/// data that is invalid or ends too early, and the errors that the
/// unpacking code raises itself.
pub open spec fn tells_of_corruption(kind: IoErrorKind) -> bool {
    kind == IoErrorKind::InvalidInput || kind == IoErrorKind::InvalidData || kind
        == IoErrorKind::UnexpectedEof || kind == IoErrorKind::Other
}

/// Whether an error of this kind tells of a damaged archive.
pub fn kind_tells_of_corruption(kind: IoErrorKind) -> (b: bool)
    ensures
        b == tells_of_corruption(kind),
{
    match kind {
        IoErrorKind::InvalidInput => true,
        IoErrorKind::InvalidData => true,
        IoErrorKind::UnexpectedEof => true,
        IoErrorKind::Other => true,
        _ => false,
    }
}

/// How unpacking a tarball into the scratch directory ended.
#[derive(Clone, Debug, PartialEq, Eq)]
pub enum UnpackOutcome {
    /// Everything was unpacked.
    Unpacked,
    /// Unpacking broke off with an error of this kind.
    Failed { kind: IoErrorKind, reason: String },
}

/// What went wrong when a step of a plan was performed.
#[derive(Clone, Copy, Debug, PartialEq, Eq, Structural)]
pub enum WriteFault {
    /// A directory of the archive could not be created.
    Directory,
    /// The directory above a file could not be created.
    ParentDirectory,
    /// A file could not be created.
    File,
    /// A file's bytes could not be written.
    Content,
}

impl WriteFault {
    /// How a failure of this sort begins its sentence.
    pub open spec fn prefix_of(self) -> Seq<char> {
        match self {
            WriteFault::Directory => "Failed to create directory: "@,
            WriteFault::ParentDirectory => "Failed to create parent directory: "@,
            WriteFault::File => "Failed to create file: "@,
            WriteFault::Content => "Failed to extract file: "@,
        }
    }

    /// How a failure of this sort begins its sentence.
    pub fn prefix(&self) -> (text: &'static str)
        ensures
            text@ == self.prefix_of(),
    {
        match self {
            WriteFault::Directory => "Failed to create directory: ",
            WriteFault::ParentDirectory => "Failed to create parent directory: ",
            WriteFault::File => "Failed to create file: ",
            WriteFault::Content => "Failed to extract file: ",
        }
    }
}

/// How performing the steps of a plan went.
#[derive(Clone, Debug, PartialEq, Eq)]
pub enum WriteOutcome {
    /// Every step was performed.
    Written,
    /// A step failed, and the steps after it were not tried.
    Failed { fault: WriteFault, reason: String },
}

/// The name of the binary inside a gzip-compressed tarball for `target`.
pub open spec fn binary_name(target: PlatformTarget) -> Seq<char> {
    "codex-"@ + target.triple()
}

/// The name of the binary inside a zip archive for `target`.
pub open spec fn zip_binary_name(target: PlatformTarget) -> Seq<char> {
    if target.windows() {
        binary_name(target) + ".exe"@
    } else {
        binary_name(target)
    }
}

/// Whether a file name has the extension `exe`: it ends in `.exe`, and
/// something stands before that.
pub open spec fn has_exe_extension(name: Seq<char>) -> bool {
    name.len() > 4 && name.subrange(name.len() - 4, name.len() as int) == ".exe"@
}

/// Whether an entry may stand in for the binary: a regular file, on
/// Windows one with the extension `exe`.
pub open spec fn is_candidate(entry: DirEntry, target: PlatformTarget) -> bool {
    entry.is_file && (target.windows() ==> has_exe_extension(entry.name@))
}

/// The name of the first candidate in a listing.
pub open spec fn first_candidate(entries: Seq<DirEntry>, target: PlatformTarget) -> Option<
    Seq<char>,
>
    decreases entries.len(),
{
    if entries.len() == 0 {
        None
    } else if is_candidate(entries[0], target) {
        Some(entries[0].name@)
    } else {
        first_candidate(entries.skip(1), target)
    }
}

/// The failure reported when the scratch directory holds no binary;
/// `expected_at` is how the host writes the path at which it looked.
pub open spec fn binary_not_found(expected_at: Seq<char>) -> InstallErrorView {
    failure(
        ErrorKindView::BinaryNotFoundInArchive,
        "Binary not found in archive at "@,
        expected_at,
    )
}

/// Where the binary lies after a zip archive was unpacked.
///
/// A failed write comes first, then the failure the plan ended with. With
/// everything unpacked, the binary is the file of the expected name if
/// there is one, else the first candidate at the top of the scratch
/// directory, and without one the binary is missing.
pub open spec fn zip_binary(
    target: PlatformTarget,
    plan_failure: Option<InstallErrorView>,
    written: WriteOutcome,
    binary_present: bool,
    expected_at: Seq<char>,
    listing: DirListing,
) -> Result<Seq<char>, InstallErrorView> {
    match written {
        WriteOutcome::Failed { fault, reason } => Err(
            failure(ErrorKindView::Io, fault.prefix_of(), reason@),
        ),
        WriteOutcome::Written => match plan_failure {
            Some(error) => Err(error),
            None => if binary_present {
                Ok(zip_binary_name(target))
            } else {
                match listing {
                    DirListing::Unreadable { reason } => Err(
                        failure(ErrorKindView::Io, "Failed to read temp directory: "@, reason@),
                    ),
                    DirListing::Entries { entries } => match first_candidate(entries@, target) {
                        Some(name) => Ok(name),
                        None => Err(binary_not_found(expected_at)),
                    },
                }
            },
        },
    }
}

/// Where the binary lies after a gzip-compressed tarball was unpacked: under
/// the expected name or nowhere.
pub open spec fn tar_gz_binary(
    target: PlatformTarget,
    unpack: UnpackOutcome,
    binary_present: bool,
    expected_at: Seq<char>,
) -> Result<Seq<char>, InstallErrorView> {
    match unpack {
        UnpackOutcome::Failed { kind, reason } => Err(
            failure(
                if tells_of_corruption(kind) {
                    ErrorKindView::ArchiveCorrupt
                } else {
                    ErrorKindView::Io
                },
                "Failed to extract tar.gz archive: "@,
                reason@,
            ),
        ),
        UnpackOutcome::Unpacked => if binary_present {
            Ok(binary_name(target))
        } else {
            Err(binary_not_found(expected_at))
        },
    }
}

/// The first candidate is a candidate of the listing with none before it;
/// there is none exactly when the listing holds no candidate.
pub proof fn lemma_first_candidate(entries: Seq<DirEntry>, target: PlatformTarget)
    ensures
        match first_candidate(entries, target) {
            Some(name) => exists|i: int|
                0 <= i < entries.len() && is_candidate(#[trigger] entries[i], target) && name
                    == entries[i].name@ && forall|j: int|
                    0 <= j < i ==> !is_candidate(#[trigger] entries[j], target),
            None => forall|i: int|
                0 <= i < entries.len() ==> !is_candidate(#[trigger] entries[i], target),
        },
    decreases entries.len(),
{
    if entries.len() > 0 && !is_candidate(entries[0], target) {
        let rest = entries.skip(1);
        lemma_first_candidate(rest, target);
        match first_candidate(rest, target) {
            Some(name) => {
                let i = choose|i: int|
                    0 <= i < rest.len() && is_candidate(#[trigger] rest[i], target) && name
                        == rest[i].name@ && forall|j: int|
                        0 <= j < i ==> !is_candidate(#[trigger] rest[j], target);
                assert(rest[i] == entries[i + 1]);
                assert forall|j: int| 0 <= j < i + 1 implies !is_candidate(
                    #[trigger] entries[j],
                    target,
                ) by {
                    if j > 0 {
                        assert(entries[j] == rest[j - 1]);
                    }
                }
                assert(is_candidate(entries[i + 1], target));
            },
            None => {
                assert forall|i: int| 0 <= i < entries.len() implies !is_candidate(
                    #[trigger] entries[i],
                    target,
                ) by {
                    if i > 0 {
                        assert(entries[i] == rest[i - 1]);
                    }
                }
            },
        }
    } else if entries.len() > 0 {
        assert(is_candidate(entries[0], target));
    }
}

/// When everything was unpacked and no file has the expected name, a
/// tarball has no binary, whatever else the scratch directory holds; a zip
/// archive has the first candidate of the listing, and none only when the
/// listing holds no candidate.
pub proof fn lemma_missing_binary(
    target: PlatformTarget,
    expected_at: Seq<char>,
    entries: Vec<DirEntry>,
)
    ensures
        tar_gz_binary(target, UnpackOutcome::Unpacked, false, expected_at) == Err::<
            Seq<char>,
            InstallErrorView,
        >(binary_not_found(expected_at)),
        ({
            let found = zip_binary(
                target,
                None,
                WriteOutcome::Written,
                false,
                expected_at,
                DirListing::Entries { entries },
            );
            &&& found is Err <==> forall|i: int|
                0 <= i < entries@.len() ==> !is_candidate(#[trigger] entries@[i], target)
            &&& found matches Ok(name) ==> Some(name) == first_candidate(entries@, target)
            &&& found matches Err(error) ==> error == binary_not_found(expected_at)
        }),
{
    lemma_first_candidate(entries@, target);
}

/// The name of the binary inside an archive for `target`; in a zip archive
/// for Windows it carries the `.exe` suffix.
pub fn expected_binary_name(target: PlatformTarget, zip: bool) -> (name: String)
    ensures
        name@ == if zip {
            zip_binary_name(target)
        } else {
            binary_name(target)
        },
{
    let mut name = join("codex-", target.asset_triple());
    if zip && target.is_windows() {
        name.append(".exe");
    }
    name
}

/// Whether a file name has the extension `exe`.
pub fn name_has_exe_extension(name: &str) -> (b: bool)
    ensures
        b == has_exe_extension(name@),
{
    let chars = chars_of(name);
    let n = chars.len();
    proof {
        reveal_strlit(".exe");
    }
    if n <= 4 {
        return false;
    }
    let ghost tail = chars@.subrange(n - 4, n as int);
    assert(tail[0] == chars@[n - 4] && tail[1] == chars@[n - 3] && tail[2] == chars@[n - 2]
        && tail[3] == chars@[n - 1]);
    let b = chars[n - 4] == '.' && chars[n - 3] == 'e' && chars[n - 2] == 'x' && chars[n - 1]
        == 'e';
    if b {
        assert(tail =~= ".exe"@);
    }
    b
}

fn not_found(expected_at: &str) -> (error: InstallError)
    ensures
        error@ == binary_not_found(expected_at@),
{
    InstallError::new(
        ErrorKind::BinaryNotFoundInArchive,
        "Binary not found in archive at ",
        expected_at,
    )
}

/// Says where the binary lies, relative to the scratch directory, once the
/// steps of a zip archive's plan have been performed.
///
/// `plan_failure` is the failure the plan ended with, `written` how
/// performing the steps went, `binary_present` whether the scratch
/// directory has an entry of the expected name, `expected_at` how the host
/// writes the path of that entry, and `listing` what is at the top of the
/// scratch directory, in the order in which the system lists it.
#[verifier::loop_isolation(false)]
pub fn locate_zip_binary(
    target: PlatformTarget,
    plan_failure: Option<InstallError>,
    written: &WriteOutcome,
    binary_present: bool,
    expected_at: &str,
    listing: &DirListing,
) -> (found: Result<String, InstallError>)
    ensures
        match zip_binary(
            target,
            failure_view(plan_failure),
            *written,
            binary_present,
            expected_at@,
            *listing,
        ) {
            Ok(expected) => found matches Ok(name) && name@ == expected,
            Err(expected) => found matches Err(error) && error@ == expected,
        },
{
    match written {
        WriteOutcome::Failed { fault, reason } => {
            return Err(InstallError::new(ErrorKind::Io, fault.prefix(), reason.as_str()));
        },
        WriteOutcome::Written => {},
    }
    match plan_failure {
        Some(error) => {
            return Err(error);
        },
        None => {},
    }
    if binary_present {
        return Ok(expected_binary_name(target, true));
    }
    match listing {
        DirListing::Unreadable { reason } => Err(
            InstallError::new(ErrorKind::Io, "Failed to read temp directory: ", reason.as_str()),
        ),
        DirListing::Entries { entries } => {
            let windows = target.is_windows();
            let mut i: usize = 0;
            assert(entries@.skip(0) =~= entries@);
            while i < entries.len()
                invariant
                    i <= entries.len(),
                    windows == target.windows(),
                    first_candidate(entries@, target) == first_candidate(
                        entries@.skip(i as int),
                        target,
                    ),
                decreases entries.len() - i,
            {
                assert(entries@.skip(i as int)[0] == entries@[i as int]);
                assert(entries@.skip(i as int).skip(1) =~= entries@.skip(i + 1));
                if entries[i].is_file && (!windows || name_has_exe_extension(
                    entries[i].name.as_str(),
                )) {
                    return Ok(entries[i].name.clone());
                }
                i += 1;
            }
            Err(not_found(expected_at))
        },
    }
}

/// The failure reported for bytes that are no gzip stream.
pub open spec fn not_a_gzip_stream(error: InstallErrorView) -> bool {
    &&& error.kind == ErrorKindView::ArchiveCorrupt
    &&& error.message.len() >= "Failed to extract tar.gz archive: "@.len()
    &&& error.message.subrange(0, "Failed to extract tar.gz archive: "@.len() as int)
        == "Failed to extract tar.gz archive: "@
}

/// Decompresses a gzip-compressed tarball given as bytes. What comes out
/// is the tarball, for the host to unpack; bytes that do not decode are
/// reported as a corrupt archive.
pub fn decode_tar_gz(archive_content: &[u8]) -> (tarball: Result<Vec<u8>, InstallError>)
    ensures
        match gzip_decoded(archive_content@) {
            Some(plain) => tarball matches Ok(bytes) && bytes@ == plain,
            None => tarball matches Err(error) && not_a_gzip_stream(error@),
        },
{
    match gzip_decode(archive_content) {
        Ok(plain) => Ok(plain),
        Err(error) => {
            let reason = io_error_text(&error);
            let failure = InstallError::new(
                ErrorKind::ArchiveCorrupt,
                "Failed to extract tar.gz archive: ",
                reason.as_str(),
            );
            assert(failure@.message.subrange(
                0,
                "Failed to extract tar.gz archive: "@.len() as int,
            ) =~= "Failed to extract tar.gz archive: "@);
            Err(failure)
        },
    }
}

/// Says where the binary lies, relative to the scratch directory, once a
/// gzip-compressed tarball has been unpacked into it. Only the expected
/// name counts; `binary_present` tells whether an entry of that name
/// exists, and `expected_at` is how the host writes its path. Unpacking
/// that broke off is put down to the archive or to the file system by the
/// kind of its error.
pub fn extract_tar_gz(
    target: PlatformTarget,
    unpack: &UnpackOutcome,
    binary_present: bool,
    expected_at: &str,
) -> (found: Result<String, InstallError>)
    ensures
        match tar_gz_binary(target, *unpack, binary_present, expected_at@) {
            Ok(expected) => found matches Ok(name) && name@ == expected,
            Err(expected) => found matches Err(error) && error@ == expected,
        },
{
    match unpack {
        UnpackOutcome::Failed { kind, reason } => {
            let blamed = if kind_tells_of_corruption(*kind) {
                ErrorKind::ArchiveCorrupt
            } else {
                ErrorKind::Io
            };
            Err(InstallError::new(blamed, "Failed to extract tar.gz archive: ", reason.as_str()))
        },
        UnpackOutcome::Unpacked => {
            if binary_present {
                Ok(expected_binary_name(target, false))
            } else {
                Err(not_found(expected_at))
            }
        },
    }
}

} // verus!
