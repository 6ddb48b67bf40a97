//! Reading APK (zip) archives held in memory, through the `zip` crate.

use vstd::prelude::*;

verus! {

/// Whether the `zip` crate accepts `archive` as a zip archive.
pub uninterp spec fn zip_opens(archive: Seq<u8>) -> bool;

/// The entry names of an accepted archive, in central-directory order.
pub uninterp spec fn zip_names(archive: Seq<u8>) -> Seq<Seq<char>>;

/// Whether the `zip` crate can open the entry called `name` in `archive`.
pub uninterp spec fn zip_finds(archive: Seq<u8>, name: Seq<char>) -> bool;

/// The decompressed contents of the entry `name`, or `None` when reading it fails.
pub uninterp spec fn zip_contents(archive: Seq<u8>, name: Seq<char>) -> Option<Seq<u8>>;

/// What looking up one entry of an archive gives.
#[derive(Debug)]
pub enum ZipEntry {
    /// The bytes are not a zip archive the `zip` crate can read; its error.
    Unreadable { message: String },
    /// The archive holds no entry it can open under that name.
    Missing,
    /// The entry was found but reading its data failed; the read error.
    Corrupt { message: String },
    /// The decompressed contents of the entry.
    Contents(Vec<u8>),
}

/// `zip::ZipArchive::new` over the bytes, then `file_names`.
/// Claims: an error exactly when the archive is refused; otherwise the names
/// in the order the archive's index keeps them, each once (the index is an
/// `IndexMap` keyed by name). The error is the text of the crate's
/// `ZipError`; what that text says is not stated.
#[verifier::external_body]
pub fn archive_names(archive: &[u8]) -> (res: Result<Vec<String>, String>)
    ensures
        res is Ok <==> zip_opens(archive@),
        res matches Ok(v) ==> v.deep_view() == zip_names(archive@),
        res matches Ok(v) ==> v.deep_view().no_duplicates(),
{
    match zip::ZipArchive::new(std::io::Cursor::new(archive)) {
        Ok(a) => Ok(a.file_names().map(String::from).collect()),
        Err(e) => Err(e.to_string()),
    }
}

/// `zip::ZipArchive::new`, then `by_name`, then reading the entry to its end.
/// Claims: each outcome names the step that failed, contents are what the
/// crate decompressed, and an entry that `by_name` opens is listed among the
/// archive's names (it is looked up in the same index). The messages are the
/// texts of the crate's and the reader's errors; what they say is not stated.
#[verifier::external_body]
pub fn archive_entry(archive: &[u8], name: &str) -> (res: ZipEntry)
    ensures
        match res {
            ZipEntry::Unreadable { .. } => !zip_opens(archive@),
            ZipEntry::Missing => zip_opens(archive@) && !zip_finds(archive@, name@),
            ZipEntry::Corrupt { .. } => zip_opens(archive@) && zip_finds(archive@, name@)
                && zip_contents(archive@, name@) is None,
            ZipEntry::Contents(b) => zip_opens(archive@) && zip_finds(archive@, name@)
                && zip_contents(archive@, name@) == Some(b@),
        },
        (res is Corrupt || res is Contents) ==> zip_names(archive@).contains(name@),
{
    let mut a = match zip::ZipArchive::new(std::io::Cursor::new(archive)) {
        Ok(a) => a,
        Err(e) => return ZipEntry::Unreadable { message: e.to_string() },
    };
    let mut file = match a.by_name(name) {
        Ok(f) => f,
        Err(_) => return ZipEntry::Missing,
    };
    let mut out = Vec::new();
    match std::io::Read::read_to_end(&mut file, &mut out) {
        Ok(_) => ZipEntry::Contents(out),
        Err(e) => ZipEntry::Corrupt { message: e.to_string() },
    }
}

} // verus!
