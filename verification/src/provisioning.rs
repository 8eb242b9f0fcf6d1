//! Provisioning of the native library: which file a platform needs, whether
//! a packaged copy may be unpacked, and what the linker is told.
//!
//! The native library is packaged as a bzip2 archive beside a checksum file,
//! which holds the SHA-256 digest of the archive in lower-case hexadecimal
//! and may go on with other words. Whoever reads and writes the files hands
//! over what it found and is told here how to proceed.

use crate::text::{first_word, first_word_of, same_text};
use sha2::Digest;
use std::io::Read;
use vstd::prelude::*;

verus! {

/// The SHA-256 digest of `data`, as `sha2` computes it.
pub uninterp spec fn sha256_digest(data: Seq<u8>) -> Seq<u8>;

/// What `bzip2` decodes from `archive`, or `None` where it reports an error.
pub uninterp spec fn bz_decoded(archive: Seq<u8>) -> Option<Seq<u8>>;

/// The lower-case hexadecimal digit of `n`, for `0 <= n <= 15`.
pub open spec fn hex_digit(n: int) -> char {
    if n == 0 {
        '0'
    } else if n == 1 {
        '1'
    } else if n == 2 {
        '2'
    } else if n == 3 {
        '3'
    } else if n == 4 {
        '4'
    } else if n == 5 {
        '5'
    } else if n == 6 {
        '6'
    } else if n == 7 {
        '7'
    } else if n == 8 {
        '8'
    } else if n == 9 {
        '9'
    } else if n == 10 {
        'a'
    } else if n == 11 {
        'b'
    } else if n == 12 {
        'c'
    } else if n == 13 {
        'd'
    } else if n == 14 {
        'e'
    } else {
        'f'
    }
}

/// The bytes in lower-case hexadecimal: two digits for each byte, the high
/// four bits first.
pub open spec fn hex_lower(bytes: Seq<u8>) -> Seq<char> {
    Seq::new(
        2 * bytes.len(),
        |i: int|
            if i % 2 == 0 {
                hex_digit(bytes[i / 2] as int / 16)
            } else {
                hex_digit(bytes[i / 2] as int % 16)
            },
    )
}

/// Calls `sha2::Sha256::digest`: the result is the SHA-256 digest of `data`,
/// which depends on `data` alone.
#[verifier::external_body]
fn sha256(data: &[u8]) -> (digest: Vec<u8>)
    ensures
        digest@ == sha256_digest(data@),
{
    sha2::Sha256::digest(data).to_vec()
}

/// Calls `hex::encode`: each byte becomes two lower-case hexadecimal digits,
/// the high four bits first.
#[verifier::external_body]
fn hex_encode(bytes: &[u8]) -> (text: String)
    ensures
        text@ == hex_lower(bytes@),
{
    hex::encode(bytes)
}

/// Reads a `bzip2::read::BzDecoder` over `archive` to its end: the result is
/// what was decoded, or the error that the decoder reported, and depends on
/// `archive` alone.
#[verifier::external_body]
fn bunzip2(archive: &[u8]) -> (r: Result<Vec<u8>, std::io::Error>)
    ensures
        match r {
            Ok(bytes) => bz_decoded(archive@) == Some(bytes@),
            Err(_) => bz_decoded(archive@) is None,
        },
{
    let mut decoded = Vec::new();
    match bzip2::read::BzDecoder::new(archive).read_to_end(&mut decoded) {
        Ok(_) => Ok(decoded),
        Err(e) => Err(e),
    }
}

/// Why the native library cannot be provided.
#[derive(Debug)]
pub enum ProvisionError {
    /// The directory that should hold the library does not exist.
    LibraryDirNotFound { dir: String },
    /// No library is packaged for the target.
    UnsupportedTarget { target: String },
    /// Neither the library nor its archive is there.
    ArchiveMissing { archive_path: String },
    /// The archive is there, and its checksum file is not.
    ChecksumMissing { checksum_path: String },
    /// The checksum file holds no word.
    ChecksumFormat,
    /// The digest of the archive is not the one in the checksum file.
    ChecksumMismatch { archive_path: String, expected: String, actual: String },
    /// The archive could not be decoded.
    Decode(std::io::Error),
    /// The library is not there after all.
    LibraryStillMissing { library_path: String },
}

/// A provisioning error as plain values: each text as its characters, and
/// the error of the decoder as it is.
pub enum Failure {
    /// The directory `dir` does not exist.
    LibraryDirNotFound { dir: Seq<char> },
    /// No library is packaged for `target`.
    UnsupportedTarget { target: Seq<char> },
    /// Neither the library nor the archive at `archive_path` is there.
    ArchiveMissing { archive_path: Seq<char> },
    /// The checksum file at `checksum_path` is not there.
    ChecksumMissing { checksum_path: Seq<char> },
    /// The checksum file holds no word.
    ChecksumFormat,
    /// The archive at `archive_path` has the digest `actual`, and its
    /// checksum file asks for `expected`.
    ChecksumMismatch { archive_path: Seq<char>, expected: Seq<char>, actual: Seq<char> },
    /// The archive could not be decoded, for the reason `cause`.
    Decode { cause: std::io::Error },
    /// The library at `library_path` is not there after all.
    LibraryStillMissing { library_path: Seq<char> },
}

impl View for ProvisionError {
    type V = Failure;

    open spec fn view(&self) -> Failure {
        match self {
            ProvisionError::LibraryDirNotFound { dir } => Failure::LibraryDirNotFound { dir: dir@ },
            ProvisionError::UnsupportedTarget { target } => Failure::UnsupportedTarget {
                target: target@,
            },
            ProvisionError::ArchiveMissing { archive_path } => Failure::ArchiveMissing {
                archive_path: archive_path@,
            },
            ProvisionError::ChecksumMissing { checksum_path } => Failure::ChecksumMissing {
                checksum_path: checksum_path@,
            },
            ProvisionError::ChecksumFormat => Failure::ChecksumFormat,
            ProvisionError::ChecksumMismatch {
                archive_path,
                expected,
                actual,
            } => Failure::ChecksumMismatch {
                archive_path: archive_path@,
                expected: expected@,
                actual: actual@,
            },
            ProvisionError::Decode(cause) => Failure::Decode { cause: *cause },
            ProvisionError::LibraryStillMissing { library_path } => Failure::LibraryStillMissing {
                library_path: library_path@,
            },
        }
    }
}

/// Whether `text` is a message of the failure: for a failure to decode, a
/// text by which the error of the decoder displays itself; for any other,
/// the one text that `failure_text` gives.
pub open spec fn failure_shows_as(failure: Failure, text: String) -> bool {
    match failure {
        Failure::Decode { cause } => vstd::string::to_string_from_display_ensures::<
            std::io::Error,
        >(&cause, text),
        _ => text@ == failure_text(failure),
    }
}

/// The message of a failure other than a failure to decode, whose message
/// is that of the decoder.
pub open spec fn failure_text(failure: Failure) -> Seq<char> {
    match failure {
        Failure::LibraryDirNotFound { dir } => "Library directory not found: "@ + dir,
        Failure::UnsupportedTarget { target } => "Unsupported target platform: "@ + target,
        Failure::ArchiveMissing {
            archive_path,
        } => "Missing both library and compressed archive: "@ + archive_path,
        Failure::ChecksumMissing {
            checksum_path,
        } => "Missing checksum file for archive: "@ + checksum_path,
        Failure::ChecksumFormat => "Invalid SHA256 file format"@,
        Failure::ChecksumMismatch { archive_path, expected, actual } => "SHA256 mismatch for "@
            + archive_path + ":\nExpected: "@ + expected + "\nActual:   "@ + actual,
        Failure::Decode { .. } => Seq::<char>::empty(),
        Failure::LibraryStillMissing {
            library_path,
        } => "Library still missing after decompression: "@ + library_path,
    }
}

impl ProvisionError {
    /// The message with which the build fails.
    pub fn to_string(&self) -> (s: String)
        ensures
            failure_shows_as(self@, s),
    {
        match self {
            ProvisionError::LibraryDirNotFound { dir } => {
                let mut s = String::from_str("Library directory not found: ");
                s.append(dir.as_str());
                s
            },
            ProvisionError::UnsupportedTarget { target } => {
                let mut s = String::from_str("Unsupported target platform: ");
                s.append(target.as_str());
                s
            },
            ProvisionError::ArchiveMissing { archive_path } => {
                let mut s = String::from_str("Missing both library and compressed archive: ");
                s.append(archive_path.as_str());
                s
            },
            ProvisionError::ChecksumMissing { checksum_path } => {
                let mut s = String::from_str("Missing checksum file for archive: ");
                s.append(checksum_path.as_str());
                s
            },
            ProvisionError::ChecksumFormat => String::from_str("Invalid SHA256 file format"),
            ProvisionError::ChecksumMismatch { archive_path, expected, actual } => {
                let mut s = String::from_str("SHA256 mismatch for ");
                s.append(archive_path.as_str());
                s.append(":\nExpected: ");
                s.append(expected.as_str());
                s.append("\nActual:   ");
                s.append(actual.as_str());
                s
            },
            ProvisionError::Decode(e) => e.to_string(),
            ProvisionError::LibraryStillMissing { library_path } => {
                let mut s = String::from_str("Library still missing after decompression: ");
                s.append(library_path.as_str());
                s
            },
        }
    }
}

/// Whether the digest `actual` is the one that the checksum file `checksum`
/// asks for: the first word of the file, character for character.
pub open spec fn digest_matches(actual: Seq<char>, checksum: Seq<char>) -> bool {
    first_word(checksum).len() > 0 && first_word(checksum) == actual
}

/// What checking the digest `actual` of the archive at `archive_path`
/// against the checksum file `checksum` gives.
pub open spec fn digest_check(archive_path: Seq<char>, actual: Seq<char>, checksum: Seq<char>)
    -> Option<Failure> {
    if first_word(checksum).len() == 0 {
        Some(Failure::ChecksumFormat)
    } else if first_word(checksum) != actual {
        Some(
            Failure::ChecksumMismatch {
                archive_path,
                expected: first_word(checksum),
                actual,
            },
        )
    } else {
        None
    }
}

/// The digest that a checksum file asks for: its first word. A checksum file
/// without a word is refused.
pub fn expected_digest(checksum: &str) -> (r: Result<String, ProvisionError>)
    ensures
        first_word(checksum@).len() == 0 ==> r is Err && r->Err_0@ == Failure::ChecksumFormat,
        first_word(checksum@).len() != 0 ==> r is Ok && r->Ok_0@ == first_word(checksum@),
{
    let expected = first_word_of(checksum);
    if expected.as_str().is_empty() {
        Err(ProvisionError::ChecksumFormat)
    } else {
        Ok(expected)
    }
}

/// Checks the digest `actual` of the archive at `archive_path`, in
/// hexadecimal, against the text of its checksum file. A checksum file
/// without a word is refused, and so is a digest that differs from the first
/// word of the file.
pub fn check_digest(archive_path: &str, actual: String, checksum: &str) -> (r: Result<
    (),
    ProvisionError,
>)
    ensures
        match digest_check(archive_path@, actual@, checksum@) {
            Some(failure) => r is Err && r->Err_0@ == failure,
            None => r is Ok,
        },
        r is Ok <==> digest_matches(actual@, checksum@),
{
    match expected_digest(checksum) {
        Err(e) => Err(e),
        Ok(expected) => {
            if same_text(expected.as_str(), actual.as_str()) {
                Ok(())
            } else {
                Err(
                    ProvisionError::ChecksumMismatch {
                        archive_path: String::from_str(archive_path),
                        expected,
                        actual,
                    },
                )
            }
        },
    }
}

/// The digest of `archive` in the form in which a checksum file holds it.
pub open spec fn archive_digest(archive: Seq<u8>) -> Seq<char> {
    hex_lower(sha256_digest(archive))
}

/// Checks the archive against its checksum file and decodes it: the bytes
/// of the library, where the digest of the archive is the first word of the
/// checksum file and the archive can be decoded. Nothing is decoded unless
/// the digest matches.
pub fn unpack(archive_path: &str, archive: &[u8], checksum: &str) -> (r: Result<
    Vec<u8>,
    ProvisionError,
>)
    ensures
        match digest_check(archive_path@, archive_digest(archive@), checksum@) {
            Some(failure) => r is Err && r->Err_0@ == failure,
            None => match bz_decoded(archive@) {
                Some(bytes) => r is Ok && r->Ok_0@ == bytes,
                None => r is Err && r->Err_0@ is Decode,
            },
        },
        r is Ok ==> digest_matches(archive_digest(archive@), checksum@),
{
    let digest = sha256(archive);
    let actual = hex_encode(digest.as_slice());
    match check_digest(archive_path, actual, checksum) {
        Err(e) => Err(e),
        Ok(_) => match bunzip2(archive) {
            Ok(bytes) => Ok(bytes),
            Err(e) => Err(ProvisionError::Decode(e)),
        },
    }
}

/// A platform for which the native library is packaged.
#[derive(Clone, Copy, Debug, PartialEq, Eq, Structural)]
pub enum Platform {
    /// Windows on x86-64.
    WindowsAmd64,
    /// Linux on x86-64.
    LinuxAmd64,
    /// macOS on ARM64.
    DarwinArm64,
    /// macOS on x86-64.
    DarwinAmd64,
}

/// The platform that a target triple names, if the library is packaged for
/// it.
pub open spec fn platform_of(target: Seq<char>) -> Option<Platform> {
    if target == "x86_64-pc-windows-msvc"@ {
        Some(Platform::WindowsAmd64)
    } else if target == "x86_64-unknown-linux-gnu"@ {
        Some(Platform::LinuxAmd64)
    } else if target == "aarch64-apple-darwin"@ {
        Some(Platform::DarwinArm64)
    } else if target == "x86_64-apple-darwin"@ {
        Some(Platform::DarwinAmd64)
    } else {
        None
    }
}

impl Platform {
    /// The name by which the linker knows the library.
    pub open spec fn spec_link_name(&self) -> Seq<char> {
        match self {
            Platform::WindowsAmd64 => "AsposePDFforRust_windows_amd64"@,
            Platform::LinuxAmd64 => "AsposePDFforRust_linux_amd64"@,
            Platform::DarwinArm64 => "AsposePDFforRust_darwin_arm64"@,
            Platform::DarwinAmd64 => "AsposePDFforRust_darwin_amd64"@,
        }
    }

    /// What stands before the link name in the name of the library file.
    pub open spec fn file_prefix(&self) -> Seq<char> {
        match self {
            Platform::WindowsAmd64 => Seq::<char>::empty(),
            _ => "lib"@,
        }
    }

    /// What stands after the link name in the name of the library file.
    pub open spec fn file_suffix(&self) -> Seq<char> {
        match self {
            Platform::WindowsAmd64 => ".dll"@,
            Platform::LinuxAmd64 => ".so"@,
            _ => ".dylib"@,
        }
    }

    /// The name of the library file.
    pub open spec fn spec_library_file_name(&self) -> Seq<char> {
        match self {
            Platform::WindowsAmd64 => "AsposePDFforRust_windows_amd64.dll"@,
            Platform::LinuxAmd64 => "libAsposePDFforRust_linux_amd64.so"@,
            Platform::DarwinArm64 => "libAsposePDFforRust_darwin_arm64.dylib"@,
            Platform::DarwinAmd64 => "libAsposePDFforRust_darwin_amd64.dylib"@,
        }
    }

    /// The platform that the target triple names. A target for which no
    /// library is packaged is refused.
    pub fn from_target(target: &str) -> (r: Result<Platform, ProvisionError>)
        ensures
            match platform_of(target@) {
                Some(platform) => r == Ok::<Platform, ProvisionError>(platform),
                None => r is Err && r->Err_0@ == (Failure::UnsupportedTarget { target: target@ }),
            },
    {
        if same_text(target, "x86_64-pc-windows-msvc") {
            Ok(Platform::WindowsAmd64)
        } else if same_text(target, "x86_64-unknown-linux-gnu") {
            Ok(Platform::LinuxAmd64)
        } else if same_text(target, "aarch64-apple-darwin") {
            Ok(Platform::DarwinArm64)
        } else if same_text(target, "x86_64-apple-darwin") {
            Ok(Platform::DarwinAmd64)
        } else {
            Err(ProvisionError::UnsupportedTarget { target: String::from_str(target) })
        }
    }

    /// The name of the library file.
    pub fn library_file_name(&self) -> (name: &'static str)
        ensures
            name@ == self.spec_library_file_name(),
    {
        match self {
            Platform::WindowsAmd64 => "AsposePDFforRust_windows_amd64.dll",
            Platform::LinuxAmd64 => "libAsposePDFforRust_linux_amd64.so",
            Platform::DarwinArm64 => "libAsposePDFforRust_darwin_arm64.dylib",
            Platform::DarwinAmd64 => "libAsposePDFforRust_darwin_amd64.dylib",
        }
    }

    /// The name of the archive that holds the library: the name of the
    /// library file and `.bz2`.
    pub fn archive_file_name(&self) -> (name: String)
        ensures
            name@ == self.spec_library_file_name() + ".bz2"@,
    {
        let mut name = String::from_str(self.library_file_name());
        name.append(".bz2");
        name
    }

    /// The name of the checksum file of the archive: the name of the library
    /// file and `.bz2.sha256`.
    pub fn checksum_file_name(&self) -> (name: String)
        ensures
            name@ == self.spec_library_file_name() + ".bz2.sha256"@,
    {
        let mut name = String::from_str(self.library_file_name());
        name.append(".bz2.sha256");
        name
    }

    /// The name by which the linker knows the library: the name of the
    /// library file without `lib` before it and without its extension.
    pub fn link_name(&self) -> (name: &'static str)
        ensures
            name@ == self.spec_link_name(),
    {
        match self {
            Platform::WindowsAmd64 => "AsposePDFforRust_windows_amd64",
            Platform::LinuxAmd64 => "AsposePDFforRust_linux_amd64",
            Platform::DarwinArm64 => "AsposePDFforRust_darwin_arm64",
            Platform::DarwinAmd64 => "AsposePDFforRust_darwin_amd64",
        }
    }
}

/// The name of the library file is the link name between the platform's
/// prefix and extension.
pub proof fn lemma_library_file_name(platform: Platform)
    ensures
        platform.spec_library_file_name() == platform.file_prefix() + platform.spec_link_name()
            + platform.file_suffix(),
{
    reveal_strlit("lib");
    reveal_strlit(".dll");
    reveal_strlit(".so");
    reveal_strlit(".dylib");
    match platform {
        Platform::WindowsAmd64 => {
            reveal_strlit("AsposePDFforRust_windows_amd64");
            reveal_strlit("AsposePDFforRust_windows_amd64.dll");
        },
        Platform::LinuxAmd64 => {
            reveal_strlit("AsposePDFforRust_linux_amd64");
            reveal_strlit("libAsposePDFforRust_linux_amd64.so");
        },
        Platform::DarwinArm64 => {
            reveal_strlit("AsposePDFforRust_darwin_arm64");
            reveal_strlit("libAsposePDFforRust_darwin_arm64.dylib");
        },
        Platform::DarwinAmd64 => {
            reveal_strlit("AsposePDFforRust_darwin_amd64");
            reveal_strlit("libAsposePDFforRust_darwin_amd64.dylib");
        },
    }
    assert(platform.spec_library_file_name() =~= platform.file_prefix() + platform.spec_link_name()
        + platform.file_suffix());
}

/// Refuses a library directory that does not exist.
pub fn check_library_dir(exists: bool, dir: &str) -> (r: Result<(), ProvisionError>)
    ensures
        exists ==> r is Ok,
        !exists ==> r is Err && r->Err_0@ == (Failure::LibraryDirNotFound { dir: dir@ }),
{
    if exists {
        Ok(())
    } else {
        Err(ProvisionError::LibraryDirNotFound { dir: String::from_str(dir) })
    }
}

/// How the library is to be had.
#[derive(Clone, Copy, Debug, PartialEq, Eq, Structural)]
pub enum Supply {
    /// The library file is there: link it.
    Present,
    /// The library file is not there, its archive and checksum file are:
    /// check the archive and unpack it.
    Packaged,
}

/// How the library is to be had, from what exists in the library directory.
/// A library file that is there is used as it is. Without it, both the
/// archive and its checksum file are needed.
pub open spec fn supply_of(
    library_exists: bool,
    archive_exists: bool,
    checksum_exists: bool,
    archive_path: Seq<char>,
    checksum_path: Seq<char>,
) -> Result<Supply, Failure> {
    if library_exists {
        Ok(Supply::Present)
    } else if !archive_exists {
        Err(Failure::ArchiveMissing { archive_path })
    } else if !checksum_exists {
        Err(Failure::ChecksumMissing { checksum_path })
    } else {
        Ok(Supply::Packaged)
    }
}

/// Decides how the library is to be had, from what exists in the library
/// directory.
pub fn supply(
    library_exists: bool,
    archive_exists: bool,
    checksum_exists: bool,
    archive_path: &str,
    checksum_path: &str,
) -> (r: Result<Supply, ProvisionError>)
    ensures
        match supply_of(
            library_exists,
            archive_exists,
            checksum_exists,
            archive_path@,
            checksum_path@,
        ) {
            Ok(s) => r == Ok::<Supply, ProvisionError>(s),
            Err(failure) => r is Err && r->Err_0@ == failure,
        },
{
    if library_exists {
        Ok(Supply::Present)
    } else if !archive_exists {
        Err(ProvisionError::ArchiveMissing { archive_path: String::from_str(archive_path) })
    } else if !checksum_exists {
        Err(ProvisionError::ChecksumMissing { checksum_path: String::from_str(checksum_path) })
    } else {
        Ok(Supply::Packaged)
    }
}

/// Refuses to link a library that is not there once provisioning is done.
pub fn check_library(exists: bool, library_path: &str) -> (r: Result<(), ProvisionError>)
    ensures
        exists ==> r is Ok,
        !exists ==> r is Err && r->Err_0@ == (Failure::LibraryStillMissing {
            library_path: library_path@,
        }),
{
    if exists {
        Ok(())
    } else {
        Err(ProvisionError::LibraryStillMissing { library_path: String::from_str(library_path) })
    }
}

/// What the build is told in order to link the library of `platform` found
/// in `dir`: where to search, what to link, and when to run again.
pub open spec fn link_directives_of(dir: Seq<char>, platform: Platform) -> Seq<Seq<char>> {
    seq![
        "cargo:rustc-link-search=native="@ + dir,
        "cargo:rustc-link-lib=dylib="@ + platform.spec_link_name(),
        "cargo:rerun-if-changed="@ + dir,
    ]
}

/// The lines that tell the build how to link the library of `platform`
/// found in `dir`.
pub fn link_directives(dir: &str, platform: Platform) -> (lines: Vec<String>)
    ensures
        lines@.len() == 3,
        forall|k: int| 0 <= k < 3 ==> (#[trigger] lines@[k])@ == link_directives_of(dir@, platform)[k],
{
    let mut search = String::from_str("cargo:rustc-link-search=native=");
    search.append(dir);
    let mut link = String::from_str("cargo:rustc-link-lib=dylib=");
    link.append(platform.link_name());
    let mut rerun = String::from_str("cargo:rerun-if-changed=");
    rerun.append(dir);
    let mut lines: Vec<String> = Vec::new();
    lines.push(search);
    lines.push(link);
    lines.push(rerun);
    lines
}

/// Where the library file is missing, nothing is linked unless the checksum
/// file exists and the digest of the archive is its first word: without the
/// file no supply is decided, and with another digest nothing is unpacked.
pub proof fn lemma_no_link_without_checksum(
    archive_exists: bool,
    checksum_exists: bool,
    archive_path: Seq<char>,
    checksum_path: Seq<char>,
    archive: Seq<u8>,
    checksum: Seq<char>,
)
    ensures
        !checksum_exists ==> supply_of(
            false,
            archive_exists,
            checksum_exists,
            archive_path,
            checksum_path,
        ) is Err,
        !digest_matches(archive_digest(archive), checksum) ==> digest_check(
            archive_path,
            archive_digest(archive),
            checksum,
        ) is Some,
{
}

} // verus!
