use codex_cli::archive::{
    decode_tar_gz, expected_binary_name, extract_tar_gz, extract_zip, kind_tells_of_corruption,
    locate_zip_binary, name_has_exe_extension, plan_extraction, read_entries, DirEntry,
    DirListing, ExtractionPlan, FsStep, IoErrorKind, UnpackOutcome, WriteFault, WriteOutcome,
    ZipEntry,
};
use codex_cli::error::{ErrorKind, InstallError};
use codex_cli::platform::PlatformTarget;
use std::io::{Cursor, Write};
use zip::write::SimpleFileOptions;
use zip::{CompressionMethod, ZipWriter};

fn stored() -> SimpleFileOptions {
    SimpleFileOptions::default().compression_method(CompressionMethod::Stored)
}

fn deflated() -> SimpleFileOptions {
    SimpleFileOptions::default().compression_method(CompressionMethod::Deflated)
}

fn file(name: &str) -> DirEntry {
    DirEntry { name: name.to_string(), is_file: true }
}

fn dir(name: &str) -> DirEntry {
    DirEntry { name: name.to_string(), is_file: false }
}

fn entries(list: Vec<DirEntry>) -> DirListing {
    DirListing::Entries { entries: list }
}

fn position(haystack: &[u8], needle: &[u8]) -> usize {
    haystack.windows(needle.len()).position(|w| w == needle).unwrap()
}

#[test]
fn zip_with_the_windows_binary_at_top_level() {
    let mut writer = ZipWriter::new(Cursor::new(Vec::new()));
    writer.start_file("codex-x86_64-pc-windows-msvc.exe", deflated()).unwrap();
    writer.write_all(b"MZ binary bytes, binary bytes, binary bytes").unwrap();
    writer.start_file("README.md", stored()).unwrap();
    writer.write_all(b"read me").unwrap();
    let bytes = writer.finish().unwrap().into_inner();

    let plan = extract_zip(&bytes);
    assert_eq!(plan.failure, None);
    assert_eq!(
        plan.steps,
        vec![
            FsStep::WriteFile {
                path: "codex-x86_64-pc-windows-msvc.exe".to_string(),
                content: b"MZ binary bytes, binary bytes, binary bytes".to_vec(),
            },
            FsStep::WriteFile { path: "README.md".to_string(), content: b"read me".to_vec() },
        ]
    );

    let found = locate_zip_binary(
        PlatformTarget::WindowsX64,
        plan.failure,
        &WriteOutcome::Written,
        true,
        "\"C:\\\\scratch\\\\codex-x86_64-pc-windows-msvc.exe\"",
        &entries(vec![file("README.md"), file("codex-x86_64-pc-windows-msvc.exe")]),
    );
    assert_eq!(found, Ok("codex-x86_64-pc-windows-msvc.exe".to_string()));
}

#[test]
fn zip_directories_and_nested_files() {
    let mut writer = ZipWriter::new(Cursor::new(Vec::new()));
    writer.add_directory("bin/", stored()).unwrap();
    writer.start_file("bin/codex.exe", stored()).unwrap();
    writer.write_all(b"abc").unwrap();
    writer.start_file("empty", stored()).unwrap();
    let bytes = writer.finish().unwrap().into_inner();

    let plan = extract_zip(&bytes);
    assert_eq!(plan.failure, None);
    assert_eq!(
        plan.steps,
        vec![
            FsStep::CreateDir { path: "bin/".to_string() },
            FsStep::WriteFile { path: "bin/codex.exe".to_string(), content: b"abc".to_vec() },
            FsStep::WriteFile { path: "empty".to_string(), content: Vec::new() },
        ]
    );
}

#[test]
fn zip_without_entries() {
    let writer = ZipWriter::new(Cursor::new(Vec::new()));
    let bytes = writer.finish().unwrap().into_inner();
    let plan = extract_zip(&bytes);
    assert_eq!(plan, ExtractionPlan { steps: Vec::new(), failure: None });
}

#[test]
fn zip_entries_that_leave_the_directory_are_passed_over() {
    let mut writer = ZipWriter::new(Cursor::new(Vec::new()));
    writer.start_file("aaaaaaaa", stored()).unwrap();
    writer.write_all(b"evil").unwrap();
    writer.start_file("good.txt", stored()).unwrap();
    writer.write_all(b"fine").unwrap();
    writer.start_file("bbbbbbbbb", stored()).unwrap();
    writer.write_all(b"root").unwrap();
    let mut bytes = writer.finish().unwrap().into_inner();
    // Rename the first entry to `../../aa` and the third to `/bbbbbbbb`,
    // in the local headers and in the central directory alike.
    while let Some(at) = bytes.windows(8).position(|w| w == b"aaaaaaaa") {
        bytes[at..at + 8].copy_from_slice(b"../../aa");
    }
    while let Some(at) = bytes.windows(9).position(|w| w == b"bbbbbbbbb") {
        bytes[at] = b'/';
    }

    let plan = extract_zip(&bytes);
    assert_eq!(plan.failure, None);
    assert_eq!(
        plan.steps,
        vec![FsStep::WriteFile { path: "good.txt".to_string(), content: b"fine".to_vec() }]
    );
}

#[test]
fn bytes_that_are_no_zip_archive() {
    for bytes in [&b""[..], &b"this is not a zip archive"[..], &[0x1f, 0x8b, 8, 0, 0, 0][..]] {
        let plan = extract_zip(bytes);
        assert!(plan.steps.is_empty());
        let error = plan.failure.unwrap();
        assert_eq!(error.kind, ErrorKind::ArchiveCorrupt);
        assert!(error.message().starts_with("Failed to open zip archive: "));
        assert!(error.message().len() > "Failed to open zip archive: ".len());
    }
}

#[test]
fn zip_with_a_file_whose_bytes_do_not_check_out() {
    let mut writer = ZipWriter::new(Cursor::new(Vec::new()));
    writer.start_file("first.txt", stored()).unwrap();
    writer.write_all(b"first").unwrap();
    writer.start_file("second.txt", stored()).unwrap();
    writer.write_all(b"SECOND-CONTENT").unwrap();
    writer.start_file("third.txt", stored()).unwrap();
    writer.write_all(b"third").unwrap();
    let mut bytes = writer.finish().unwrap().into_inner();
    let at = position(&bytes, b"SECOND-CONTENT");
    bytes[at] = b'X';

    let plan = extract_zip(&bytes);
    assert_eq!(
        plan.steps,
        vec![FsStep::WriteFile { path: "first.txt".to_string(), content: b"first".to_vec() }]
    );
    let error = plan.failure.unwrap();
    assert_eq!(error.kind, ErrorKind::ArchiveCorrupt);
    assert_eq!(error.message(), "Failed to extract file: Invalid checksum");
}

#[test]
fn zip_with_an_entry_that_cannot_be_opened() {
    let mut writer = ZipWriter::new(Cursor::new(Vec::new()));
    writer.start_file("first.txt", stored()).unwrap();
    writer.write_all(b"first").unwrap();
    writer.start_file("second.txt", stored()).unwrap();
    writer.write_all(b"second").unwrap();
    let mut bytes = writer.finish().unwrap().into_inner();
    // Mark the second entry as encrypted in the central directory: the
    // general-purpose flags follow the signature and two version fields.
    let first = position(&bytes, b"PK\x01\x02");
    let second = first + 4 + position(&bytes[first + 4..], b"PK\x01\x02");
    bytes[second + 8] |= 1;

    let plan = extract_zip(&bytes);
    assert_eq!(
        plan.steps,
        vec![FsStep::WriteFile { path: "first.txt".to_string(), content: b"first".to_vec() }]
    );
    let error = plan.failure.unwrap();
    assert_eq!(error.kind, ErrorKind::ArchiveCorrupt);
    assert!(error.message().starts_with("Failed to read zip entry: "));
}

#[test]
fn plan_for_given_entries() {
    let plan = plan_extraction(&vec![
        ZipEntry::Directory { path: "a/".to_string() },
        ZipEntry::Unsafe,
        ZipEntry::File { path: "a/b".to_string(), content: vec![1, 2, 3] },
    ]);
    assert_eq!(
        plan,
        ExtractionPlan {
            steps: vec![
                FsStep::CreateDir { path: "a/".to_string() },
                FsStep::WriteFile { path: "a/b".to_string(), content: vec![1, 2, 3] },
            ],
            failure: None,
        }
    );
    assert_eq!(plan_extraction(&Vec::new()), ExtractionPlan { steps: Vec::new(), failure: None });
}

#[test]
fn plan_ends_at_the_first_broken_entry() {
    let plan = plan_extraction(&vec![
        ZipEntry::File { path: "a".to_string(), content: vec![9] },
        ZipEntry::Damaged { path: "b".to_string(), reason: "Invalid checksum".to_string() },
        ZipEntry::File { path: "c".to_string(), content: vec![8] },
    ]);
    assert_eq!(plan.steps, vec![FsStep::WriteFile { path: "a".to_string(), content: vec![9] }]);
    assert_eq!(
        plan.failure,
        Some(InstallError {
            kind: ErrorKind::ArchiveCorrupt,
            message: "Failed to extract file: Invalid checksum".to_string(),
        })
    );

    let plan = plan_extraction(&vec![
        ZipEntry::Unreadable { reason: "unsupported Zip archive".to_string() },
        ZipEntry::Directory { path: "d/".to_string() },
    ]);
    assert!(plan.steps.is_empty());
    assert_eq!(
        plan.failure,
        Some(InstallError {
            kind: ErrorKind::ArchiveCorrupt,
            message: "Failed to read zip entry: unsupported Zip archive".to_string(),
        })
    );
}

#[test]
fn binary_names_inside_archives() {
    assert_eq!(
        expected_binary_name(PlatformTarget::LinuxX64, false),
        "codex-x86_64-unknown-linux-musl"
    );
    assert_eq!(expected_binary_name(PlatformTarget::MacosArm64, true), "codex-aarch64-apple-darwin");
    assert_eq!(
        expected_binary_name(PlatformTarget::WindowsArm64, true),
        "codex-aarch64-pc-windows-msvc.exe"
    );
    assert_eq!(
        expected_binary_name(PlatformTarget::WindowsArm64, false),
        "codex-aarch64-pc-windows-msvc"
    );
}

#[test]
fn exe_extension() {
    for name in ["codex.exe", "a.exe", "..exe", "x.y.exe", "é.exe"] {
        assert!(name_has_exe_extension(name), "{}", name);
    }
    for name in [".exe", "exe", "codex", "codex.EXE", "codex.exe ", "codex.exe.txt", "", "aexe"] {
        assert!(!name_has_exe_extension(name), "{}", name);
    }
    for name in ["codex.exe", ".exe", "..exe", "a.b", "exe", "x.exe.", "é.exe"] {
        let expected = std::path::Path::new(name).extension().map_or(false, |ext| ext == "exe");
        assert_eq!(name_has_exe_extension(name), expected, "{}", name);
    }
}

const AT: &str = "\"/data/codex-cli/temp/codex-bin\"";

#[test]
fn zip_falls_back_to_the_first_candidate() {
    let listing = entries(vec![dir("docs"), file("notes.txt"), file("codex.exe"), file("b.exe")]);
    let found = locate_zip_binary(
        PlatformTarget::WindowsX64,
        None,
        &WriteOutcome::Written,
        false,
        AT,
        &listing,
    );
    assert_eq!(found, Ok("codex.exe".to_string()));

    let found =
        locate_zip_binary(PlatformTarget::LinuxX64, None, &WriteOutcome::Written, false, AT, &listing);
    assert_eq!(found, Ok("notes.txt".to_string()));
}

#[test]
fn zip_without_any_candidate() {
    let listing = entries(vec![dir("codex.exe"), file("readme.txt"), file(".exe")]);
    let error = locate_zip_binary(
        PlatformTarget::WindowsArm64,
        None,
        &WriteOutcome::Written,
        false,
        "\"C:\\\\temp\\\\codex-aarch64-pc-windows-msvc.exe\"",
        &listing,
    )
    .unwrap_err();
    assert_eq!(error.kind, ErrorKind::BinaryNotFoundInArchive);
    assert_eq!(
        error.message(),
        "Binary not found in archive at \"C:\\\\temp\\\\codex-aarch64-pc-windows-msvc.exe\""
    );

    let error = locate_zip_binary(
        PlatformTarget::MacosX64,
        None,
        &WriteOutcome::Written,
        false,
        AT,
        &entries(vec![dir("bin")]),
    )
    .unwrap_err();
    assert_eq!(error.kind, ErrorKind::BinaryNotFoundInArchive);
    assert_eq!(
        error.message(),
        "Binary not found in archive at \"/data/codex-cli/temp/codex-bin\""
    );
}

#[test]
fn zip_expected_name_wins_over_the_listing() {
    let listing = DirListing::Unreadable { reason: "denied".to_string() };
    let found = locate_zip_binary(
        PlatformTarget::WindowsX64,
        None,
        &WriteOutcome::Written,
        true,
        AT,
        &listing,
    );
    assert_eq!(found, Ok("codex-x86_64-pc-windows-msvc.exe".to_string()));
}

#[test]
fn zip_failures_come_in_order() {
    let corrupt = InstallError {
        kind: ErrorKind::ArchiveCorrupt,
        message: "Failed to read zip entry: x".to_string(),
    };
    let listing = entries(vec![file("codex.exe")]);
    let error = locate_zip_binary(
        PlatformTarget::WindowsX64,
        Some(corrupt.clone()),
        &WriteOutcome::Failed { fault: WriteFault::Content, reason: "disk full".to_string() },
        true,
        AT,
        &listing,
    )
    .unwrap_err();
    assert_eq!(error.kind, ErrorKind::Io);
    assert_eq!(error.message(), "Failed to extract file: disk full");

    let error = locate_zip_binary(
        PlatformTarget::WindowsX64,
        Some(corrupt.clone()),
        &WriteOutcome::Written,
        true,
        AT,
        &listing,
    )
    .unwrap_err();
    assert_eq!(error, corrupt);

    let error = locate_zip_binary(
        PlatformTarget::WindowsX64,
        None,
        &WriteOutcome::Written,
        false,
        AT,
        &DirListing::Unreadable { reason: "denied".to_string() },
    )
    .unwrap_err();
    assert_eq!(error.kind, ErrorKind::Io);
    assert_eq!(error.message(), "Failed to read temp directory: denied");
}

#[test]
fn each_failed_step_has_its_own_sentence() {
    let cases = [
        (WriteFault::Directory, "Failed to create directory: denied"),
        (WriteFault::ParentDirectory, "Failed to create parent directory: denied"),
        (WriteFault::File, "Failed to create file: denied"),
        (WriteFault::Content, "Failed to extract file: denied"),
    ];
    for (fault, message) in cases {
        let error = locate_zip_binary(
            PlatformTarget::WindowsX64,
            None,
            &WriteOutcome::Failed { fault, reason: "denied".to_string() },
            true,
            AT,
            &entries(vec![file("codex.exe")]),
        )
        .unwrap_err();
        assert_eq!(error.kind, ErrorKind::Io);
        assert_eq!(error.message(), message);
    }
}

#[test]
fn tarball_with_the_binary() {
    let found = extract_tar_gz(PlatformTarget::LinuxArm64, &UnpackOutcome::Unpacked, true, AT);
    assert_eq!(found, Ok("codex-aarch64-unknown-linux-musl".to_string()));
}

#[test]
fn tarball_without_the_binary_has_no_fallback() {
    let error =
        extract_tar_gz(PlatformTarget::LinuxX64, &UnpackOutcome::Unpacked, false, AT).unwrap_err();
    assert_eq!(error.kind, ErrorKind::BinaryNotFoundInArchive);
    assert_eq!(
        error.message(),
        "Binary not found in archive at \"/data/codex-cli/temp/codex-bin\""
    );
    // Under the same condition a zip archive takes any regular file.
    let found = locate_zip_binary(
        PlatformTarget::LinuxX64,
        None,
        &WriteOutcome::Written,
        false,
        AT,
        &entries(vec![file("codex")]),
    );
    assert_eq!(found, Ok("codex".to_string()));
}

#[test]
fn tarball_that_did_not_unpack() {
    let corrupt = [
        IoErrorKind::InvalidInput,
        IoErrorKind::InvalidData,
        IoErrorKind::UnexpectedEof,
        IoErrorKind::Other,
    ];
    let refused = [
        IoErrorKind::NotFound,
        IoErrorKind::PermissionDenied,
        IoErrorKind::AlreadyExists,
        IoErrorKind::WriteZero,
        IoErrorKind::Interrupted,
        IoErrorKind::Unsupported,
        IoErrorKind::OutOfMemory,
        IoErrorKind::Unlisted,
    ];
    for kind in corrupt {
        assert!(kind_tells_of_corruption(kind));
        let error = extract_tar_gz(
            PlatformTarget::MacosArm64,
            &UnpackOutcome::Failed { kind, reason: "numeric field was not a number".to_string() },
            true,
            AT,
        )
        .unwrap_err();
        assert_eq!(error.kind, ErrorKind::ArchiveCorrupt);
        assert_eq!(
            error.message(),
            "Failed to extract tar.gz archive: numeric field was not a number"
        );
    }
    for kind in refused {
        assert!(!kind_tells_of_corruption(kind));
        let error = extract_tar_gz(
            PlatformTarget::MacosArm64,
            &UnpackOutcome::Failed { kind, reason: "permission denied".to_string() },
            true,
            AT,
        )
        .unwrap_err();
        assert_eq!(error.kind, ErrorKind::Io);
        assert_eq!(error.message(), "Failed to extract tar.gz archive: permission denied");
    }
}

fn gzip_of(plain: &[u8]) -> Vec<u8> {
    let mut encoder = flate2::write::GzEncoder::new(Vec::new(), flate2::Compression::default());
    encoder.write_all(plain).unwrap();
    encoder.finish().unwrap()
}

#[test]
fn gzip_stream_is_decoded() {
    let plain: Vec<u8> = (0..5000u32).map(|i| (i % 251) as u8).collect();
    assert_eq!(decode_tar_gz(&gzip_of(&plain)), Ok(plain));
    assert_eq!(decode_tar_gz(&gzip_of(b"")), Ok(Vec::new()));
    assert_eq!(decode_tar_gz(&gzip_of(b"codex")), Ok(b"codex".to_vec()));
}

#[test]
fn bytes_that_are_no_gzip_stream() {
    let good = gzip_of(b"some tarball bytes, some tarball bytes, some tarball bytes");
    let mut damaged = good.clone();
    let last = damaged.len() - 5;
    damaged[last] ^= 0xff;
    let cut = good[..good.len() / 2].to_vec();
    for bytes in [Vec::new(), b"PK\x03\x04 not gzip at all".to_vec(), damaged, cut] {
        let error = decode_tar_gz(&bytes).unwrap_err();
        assert_eq!(error.kind, ErrorKind::ArchiveCorrupt);
        assert!(error.message().starts_with("Failed to extract tar.gz archive: "));
    }
}

#[test]
fn entries_are_read_in_archive_order() {
    let mut writer = ZipWriter::new(Cursor::new(Vec::new()));
    writer.add_directory("docs", stored()).unwrap();
    writer.start_file("docs/a.txt", deflated()).unwrap();
    writer.write_all(b"aaaaaaaaaaaaaaaaaaaaaaaaaaaaaaaaaaaaaaaa").unwrap();
    writer.start_file("z", stored()).unwrap();
    writer.write_all(b"z").unwrap();
    let bytes = writer.finish().unwrap().into_inner();
    let mut archive = zip::ZipArchive::new(Cursor::new(bytes)).unwrap();
    let entries = read_entries(&mut archive);
    assert_eq!(
        entries,
        vec![
            ZipEntry::Directory { path: "docs/".to_string() },
            ZipEntry::File {
                path: "docs/a.txt".to_string(),
                content: b"aaaaaaaaaaaaaaaaaaaaaaaaaaaaaaaaaaaaaaaa".to_vec(),
            },
            ZipEntry::File { path: "z".to_string(), content: b"z".to_vec() },
        ]
    );
    assert_eq!(archive.len(), 3);
}
