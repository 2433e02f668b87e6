//! Reading the first entry of a ZIP archive held in memory.
//!
//! The archive format is handled by the `zip` crate. Its calls stand behind
//! the wrappers at the end of this file, whose contracts name what the
//! crate makes of given bytes without describing the format; the order of
//! the calls and the error reported at each step are verified here.

use std::io::Cursor;
use std::io::Read;
use vstd::prelude::*;
use vstd::string::StringExecFns;
use zip::read::ZipFile;
use zip::result::ZipError;
use zip::ZipArchive;

verus! {

/// An archive read from bytes in memory.
pub type MemoryArchive = ZipArchive<Cursor<Vec<u8>>>;

/// The number of entries of the archive that `bytes` hold, or `None` where
/// they hold no archive that can be opened.
pub uninterp spec fn zip_entry_count(bytes: Seq<u8>) -> Option<nat>;

/// Whether entry `index` of the archive in `bytes` is refused for want of
/// the right password when it is opened with the empty password.
pub uninterp spec fn zip_entry_locked(bytes: Seq<u8>, index: nat) -> bool;

/// Whether entry `index` of the archive in `bytes` can be opened for
/// reading without a password.
pub uninterp spec fn zip_entry_opens(bytes: Seq<u8>, index: nat) -> bool;

/// The unpacked contents of entry `index` of the archive in `bytes`, or
/// `None` where reading them to the end fails.
pub uninterp spec fn zip_entry_data(bytes: Seq<u8>, index: nat) -> Option<Seq<u8>>;

/// The bytes that `archive` was opened on.
pub uninterp spec fn archive_source(archive: MemoryArchive) -> Seq<u8>;

/// What reading `file` to its end yields: the bytes it has still to give,
/// or `None` where the read fails.
pub uninterp spec fn file_pending(file: ZipFile<'_>) -> Option<Seq<u8>>;

/// The step at which reading the first entry failed.
pub enum Stage {
    /// The bytes hold no archive that can be opened.
    Open,
    /// The archive has no entries.
    Empty,
    /// The first entry cannot be opened: it wants a password, or the
    /// reader refuses it.
    Entry,
    /// The contents of the first entry cannot be read.
    Contents,
}

/// The stage, if any, at which reading the first entry of `bytes` fails.
pub open spec fn failing_stage(bytes: Seq<u8>) -> Option<Stage> {
    match zip_entry_count(bytes) {
        None => Some(Stage::Open),
        Some(count) => if count == 0 {
            Some(Stage::Empty)
        } else if zip_entry_locked(bytes, 0) || !zip_entry_opens(bytes, 0) {
            Some(Stage::Entry)
        } else if zip_entry_data(bytes, 0) is None {
            Some(Stage::Contents)
        } else {
            None
        },
    }
}

/// The words that announce a failure at `stage`. At every stage but
/// `Empty` the cause follows them.
pub open spec fn stage_label(stage: Stage) -> Seq<char> {
    match stage {
        Stage::Open => "Invalid ZIP archive: "@,
        Stage::Empty => "Zip archive is empty"@,
        Stage::Entry => "Failed to read first file in ZIP: "@,
        Stage::Contents => "Failed to read zipped file contents: "@,
    }
}

/// The message for a failure at `stage` caused by `cause`.
pub fn stage_message(stage: Stage, cause: &str) -> (message: String)
    ensures
        message@ == if stage is Empty {
            stage_label(stage)
        } else {
            stage_label(stage) + cause@
        },
{
    match stage {
        Stage::Open => {
            let mut message = "Invalid ZIP archive: ".to_owned();
            message.append(cause);
            message
        },
        Stage::Empty => "Zip archive is empty".to_owned(),
        Stage::Entry => {
            let mut message = "Failed to read first file in ZIP: ".to_owned();
            message.append(cause);
            message
        },
        Stage::Contents => {
            let mut message = "Failed to read zipped file contents: ".to_owned();
            message.append(cause);
            message
        },
    }
}

/// The unpacked contents of the first entry of the archive in `bytes`, or a
/// message for the stage that failed: its label alone for an archive
/// without entries, and its label followed by the cause at every other
/// stage.
pub fn parse_zip(bytes: Vec<u8>) -> (r: Result<Vec<u8>, String>)
    ensures
        match failing_stage(bytes@) {
            None => r matches Ok(data) && Some(data@) == zip_entry_data(bytes@, 0),
            Some(stage) => r matches Err(message) && if stage is Empty {
                message@ == stage_label(stage)
            } else {
                stage_label(stage).is_prefix_of(message@)
            },
        },
{
    let mut archive = match open_archive(bytes) {
        Ok(archive) => archive,
        Err(e) => {
            return Err(stage_message(Stage::Open, zip_error_text(&e).as_str()));
        },
    };
    if archive_len(&archive) == 0 {
        return Err(stage_message(Stage::Empty, ""));
    }
    // An entry that wants a password is refused before it is opened: on
    // some of them the reader would not return from the attempt.
    if entry_locked(&mut archive, 0) {
        return Err(stage_message(Stage::Entry, password_required_text().as_str()));
    }
    let file = match entry_at(&mut archive, 0) {
        Ok(file) => file,
        Err(e) => {
            return Err(stage_message(Stage::Entry, zip_error_text(&e).as_str()));
        },
    };
    match read_all(file) {
        Ok(data) => Ok(data),
        Err(e) => Err(stage_message(Stage::Contents, io_error_text(&e).as_str())),
    }
}

/// A ZIP archive and the reader it draws on.
#[verifier::external_type_specification]
#[verifier::external_body]
#[verifier::reject_recursive_types(R)]
pub struct ExZipArchive<R>(ZipArchive<R>);

/// A reader over bytes in memory.
#[verifier::external_type_specification]
#[verifier::external_body]
#[verifier::reject_recursive_types(T)]
pub struct ExCursor<T>(Cursor<T>);

/// One entry of an archive, open for reading.
#[verifier::external_type_specification]
#[verifier::external_body]
pub struct ExZipFile<'a>(ZipFile<'a>);

/// The error of the archive reader.
#[verifier::external_type_specification]
#[verifier::external_body]
pub struct ExZipError(ZipError);

/// The error of a read.
#[verifier::external_type_specification]
#[verifier::external_body]
pub struct ExIoError(std::io::Error);

/// Calls `ZipArchive::new` on a cursor over `bytes`. Trusted: whether it
/// succeeds is a function of the bytes alone, and the archive it returns
/// reads from those bytes.
#[verifier::external_body]
fn open_archive(bytes: Vec<u8>) -> (r: Result<MemoryArchive, ZipError>)
    ensures
        r is Ok <==> zip_entry_count(bytes@) is Some,
        r matches Ok(archive) ==> archive_source(archive) == bytes@,
{
    ZipArchive::new(Cursor::new(bytes))
}

/// Calls `ZipArchive::len`. Trusted: it is the number of entries found
/// when the archive was opened.
#[verifier::external_body]
fn archive_len(archive: &MemoryArchive) -> (n: usize)
    ensures
        zip_entry_count(archive_source(*archive)) == Some(n as nat),
{
    archive.len()
}

/// Calls `ZipArchive::by_index_decrypt` with the empty password and lets go
/// of the entry. Trusted: whether the call comes back with an invalid
/// password is a function of the archive's bytes and the index alone, and
/// the archive still reads from the same bytes. The call does so for an
/// entry marked as encrypted whose check byte does not match, and for an
/// entry that names an AES mode without being marked as encrypted.
#[verifier::external_body]
fn entry_locked(archive: &mut MemoryArchive, index: usize) -> (locked: bool)
    ensures
        locked == zip_entry_locked(archive_source(*old(archive)), index as nat),
        archive_source(*final(archive)) == archive_source(*old(archive)),
{
    matches!(archive.by_index_decrypt(index, &[]), Ok(Err(_)))
}

/// Calls `ZipArchive::by_index`. Trusted: whether it succeeds is a function
/// of the archive's bytes and the index alone, the entry it returns has all
/// of its contents still to give, and the archive still reads from the same
/// bytes. The call unwinds on an entry that names an AES mode without being
/// marked as encrypted; `entry_locked` is true of every such entry, so they
/// are left out.
#[verifier::external_body]
fn entry_at<'a>(archive: &'a mut MemoryArchive, index: usize) -> (r: Result<ZipFile<'a>, ZipError>)
    requires
        !zip_entry_locked(archive_source(*old(archive)), index as nat),
    ensures
        r is Ok <==> zip_entry_opens(archive_source(*old(archive)), index as nat),
        r matches Ok(file) ==> file_pending(file) == zip_entry_data(
            archive_source(*old(archive)),
            index as nat,
        ),
        archive_source(*final(archive)) == archive_source(*old(archive)),
{
    archive.by_index(index)
}

/// Calls `Read::read_to_end` on an entry, with an empty buffer, and lets go
/// of the entry. Trusted: the bytes read are those the entry had still to
/// give.
#[verifier::external_body]
fn read_all(file: ZipFile<'_>) -> (r: Result<Vec<u8>, std::io::Error>)
    ensures
        r is Ok <==> file_pending(file) is Some,
        r matches Ok(data) ==> file_pending(file) == Some(data@),
{
    let mut file = file;
    let mut buffer = Vec::new();
    file.read_to_end(&mut buffer).map(|_| buffer)
}

/// Calls `ToString::to_string` on an archive error. Trusted; nothing is
/// promised of the text.
#[verifier::external_body]
fn zip_error_text(error: &ZipError) -> String {
    error.to_string()
}

/// Calls `ToString::to_string` on the error with which the archive reader
/// answers an entry that wants a password. Trusted; nothing is promised of
/// the text.
#[verifier::external_body]
fn password_required_text() -> String {
    ZipError::UnsupportedArchive(ZipError::PASSWORD_REQUIRED).to_string()
}

/// Calls `ToString::to_string` on a read error. Trusted; nothing is
/// promised of the text.
#[verifier::external_body]
fn io_error_text(error: &std::io::Error) -> String {
    error.to_string()
}

} // verus!
