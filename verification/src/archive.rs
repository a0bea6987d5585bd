//! Reading the entries of an uploaded ZIP archive (through the `zip` crate).
use vstd::prelude::*;

verus! {

#[verifier::external_type_specification]
#[verifier::external_body]
pub struct ExZipError(zip::result::ZipError);

#[verifier::external_type_specification]
#[verifier::external_body]
pub struct ExIoError(std::io::Error);

/// Why an archive entry could not be read: the archive or entry could not be
/// opened, or the entry's content could not be read.
#[derive(Debug)]
pub enum EntryReadFailure {
    Zip(zip::result::ZipError),
    Io(std::io::Error),
}

/// One entry of a ZIP archive, with the parts that upload handling reads.
#[derive(Debug)]
pub struct ArchiveEntry {
    /// The entry is a directory.
    pub is_dir: bool,
    /// The raw entry name as stored in the archive.
    pub name: String,
    /// The entry name as a relative path that stays inside the archive, when
    /// it has one (`ZipFile::enclosed_name`).
    pub enclosed_path: Option<String>,
    /// The last component of `enclosed_path`, when there is one.
    pub enclosed_file_name: Option<String>,
    /// The entry's uncompressed content.
    pub data: Vec<u8>,
}

/// The parts of an entry as plain values: directory flag, raw name, enclosed
/// path, its last component, content.
pub type EntryModel = (bool, Seq<char>, Option<Seq<char>>, Option<Seq<char>>, Seq<u8>);

/// The plain-value model of an entry.
pub open spec fn entry_model(e: ArchiveEntry) -> EntryModel {
    (e.is_dir, e.name@, crate::text::opt_view(e.enclosed_path), crate::text::opt_view(
        e.enclosed_file_name,
    ), e.data@)
}

/// The number of entries that `zip::ZipArchive::len` reports for an archive
/// with these bytes.
pub uninterp spec fn zip_entry_count(bytes: Seq<u8>) -> nat;

/// The entry at `index` that `zip::ZipArchive::by_index` reads from an archive
/// with these bytes.
pub uninterp spec fn zip_entry(bytes: Seq<u8>, index: int) -> EntryModel;

/// Whether `zip::ZipArchive::new` opens an archive with these bytes.
pub uninterp spec fn zip_opens(bytes: Seq<u8>) -> bool;

/// Whether `zip::ZipArchive::by_index` opens entry `index` of the archive
/// with these bytes.
pub uninterp spec fn zip_entry_opens(bytes: Seq<u8>, index: int) -> bool;

/// Whether reading the content of entry `index` (the entry's `Read` impl,
/// to its end) succeeds.
pub uninterp spec fn zip_entry_readable(bytes: Seq<u8>, index: int) -> bool;

/// Opens the archive (`ZipArchive::new`) and returns its entry count
/// (`ZipArchive::len`): it succeeds exactly when the archive opens, with the
/// named count. Nothing is stated of the error.
#[verifier::external_body]
pub(crate) fn zip_len(bytes: &[u8]) -> (r: Result<usize, zip::result::ZipError>)
    ensures
        r is Ok <==> zip_opens(bytes@),
        r matches Ok(n) ==> n as nat == zip_entry_count(bytes@),
{
    Ok(zip::ZipArchive::new(std::io::Cursor::new(bytes))?.len())
}

/// Opens the archive and entry `index` (`ZipArchive::by_index`) and tells
/// whether the entry is a directory (`is_dir`), without reading it. It
/// succeeds exactly when both open; the flag is the named entry's.
#[verifier::external_body]
pub(crate) fn zip_entry_is_dir(bytes: &[u8], index: usize) -> (r: Result<bool, zip::result::ZipError>)
    ensures
        r is Ok <==> (zip_opens(bytes@) && zip_entry_opens(bytes@, index as int)),
        r matches Ok(d) ==> d == zip_entry(bytes@, index as int).0,
{
    let mut archive = zip::ZipArchive::new(std::io::Cursor::new(bytes))?;
    let entry = archive.by_index(index)?;
    let is_dir = entry.is_dir();
    Ok(is_dir)
}

/// Opens the archive and reads entry `index` (`ZipArchive::by_index`, then the
/// entry's `Read` impl, `is_dir`, `name` and `enclosed_name`). It succeeds
/// exactly when the archive and the entry open and the content reads; the
/// entry is then the named one.
#[verifier::external_body]
pub(crate) fn zip_read_entry(bytes: &[u8], index: usize) -> (r: Result<ArchiveEntry, EntryReadFailure>)
    ensures
        r is Ok <==> (zip_opens(bytes@) && zip_entry_opens(bytes@, index as int) && zip_entry_readable(
            bytes@,
            index as int,
        )),
        r matches Ok(e) ==> entry_model(e) == zip_entry(bytes@, index as int),
{
    let mut archive = zip::ZipArchive::new(std::io::Cursor::new(bytes)).map_err(EntryReadFailure::Zip)?;
    let mut entry = archive.by_index(index).map_err(EntryReadFailure::Zip)?;
    let mut data = Vec::new();
    std::io::Read::read_to_end(&mut entry, &mut data).map_err(EntryReadFailure::Io)?;
    let enclosed = entry.enclosed_name();
    Ok(ArchiveEntry {
        is_dir: entry.is_dir(),
        name: entry.name().to_string(),
        enclosed_path: enclosed.as_ref().map(|p| p.to_string_lossy().into_owned()),
        enclosed_file_name: enclosed.as_ref().and_then(|p| p.file_name()).map(|f| f.to_string_lossy().into_owned()),
        data,
    })
}

/// The message of a `zip` error (its `Display` text); nothing is stated of it.
#[verifier::external_body]
pub(crate) fn zip_error_message(e: &zip::result::ZipError) -> String {
    e.to_string()
}

/// The message of an I/O error (its `Display` text); nothing is stated of it.
#[verifier::external_body]
pub(crate) fn io_error_message(e: &std::io::Error) -> String {
    e.to_string()
}

/// The message of a failed entry read: the text of the error that stopped it.
pub fn entry_failure_message(failure: &EntryReadFailure) -> String {
    match failure {
        EntryReadFailure::Zip(e) => zip_error_message(e),
        EntryReadFailure::Io(e) => io_error_message(e),
    }
}

} // verus!
