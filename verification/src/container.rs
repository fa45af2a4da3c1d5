//! The archive side of the library: opening a byte buffer as a zip-format
//! container and pulling single named entries out of it.

use vstd::prelude::*;

verus! {

/// What the zip parser finds in `data`: `None` when the bytes do not parse
/// as a zip-format container, otherwise the container's index, each full
/// entry name mapped to that entry's stored contents.
pub uninterp spec fn zip_index(data: Seq<u8>) -> Option<Map<Seq<char>, Seq<u8>>>;

/// The entries that an open archive resolves by full name: each name mapped
/// to the entry's stored contents.
pub uninterp spec fn archive_entries(
    archive: zip::ZipArchive<std::io::Cursor<Vec<u8>>>,
) -> Map<Seq<char>, Seq<u8>>;

/// Whether the entry of full name `name` is present in the archive and its
/// contents read out in full. The archive sits over an in-memory buffer, so
/// this is a function of the archive value and the name alone: an entry that
/// is absent, stored with an unsupported or encrypted method, or corrupt
/// (its checksum does not match) is not readable, every other one is.
pub uninterp spec fn entry_readable(
    archive: zip::ZipArchive<std::io::Cursor<Vec<u8>>>,
    name: Seq<char>,
) -> bool;

#[verifier::external_type_specification]
#[verifier::external_body]
#[verifier::reject_recursive_types(R)]
pub struct ExZipArchive<R>(zip::ZipArchive<R>);

#[verifier::external_type_specification]
#[verifier::external_body]
#[verifier::reject_recursive_types(T)]
pub struct ExCursor<T>(std::io::Cursor<T>);

/// Why reading one entry out of an open archive failed.
enum EntryReadError {
    /// No entry of the given full name is in the index.
    NotFound,
    /// The entry is there, but its contents could not be read out in full;
    /// the reader's own error text.
    ReadFailed(String),
}

/// Relies on `zip::ZipArchive::new`: it parses the container's central
/// directory from the bytes alone, so both the outcome and the resulting
/// entry index are functions of `data`; on a parse failure the error's own
/// text is handed back.
#[verifier::external_body]
fn open_archive(data: Vec<u8>) -> (r: Result<
    zip::ZipArchive<std::io::Cursor<Vec<u8>>>,
    String,
>)
    ensures
        r matches Ok(archive) ==> zip_index(data@) matches Some(index) && archive_entries(
            archive,
        ) == index,
        r is Err <==> zip_index(data@) is None,
{
    match zip::ZipArchive::new(std::io::Cursor::new(data)) {
        Ok(archive) => Ok(archive),
        Err(err) => Err(err.to_string()),
    }
}

/// Relies on `zip::ZipArchive::by_name`, which reports `FileNotFound`
/// exactly when no entry of that full name (a case-sensitive, byte-exact
/// match) is in the index, and on `std::io::Read::read_to_end`, which turns
/// a found entry's reader into its stored contents in full, its checksum
/// validated at the end. Both read from the in-memory buffer alone, so
/// whether a present entry reads out is a function of the archive value and
/// the name; neither call changes the index or what is readable.
#[verifier::external_body]
fn read_entry(
    archive: &mut zip::ZipArchive<std::io::Cursor<Vec<u8>>>,
    name: &str,
) -> (r: Result<Vec<u8>, EntryReadError>)
    ensures
        archive_entries(*final(archive)) == archive_entries(*old(archive)),
        forall|n: Seq<char>|
            entry_readable(*final(archive), n) == entry_readable(*old(archive), n),
        (r is Ok) <==> (archive_entries(*old(archive)).contains_key(name@) && entry_readable(
            *old(archive),
            name@,
        )),
        r matches Ok(bytes) ==> bytes@ == archive_entries(*old(archive))[name@],
        (r matches Err(EntryReadError::NotFound)) <==> !archive_entries(
            *old(archive),
        ).contains_key(name@),
{
    match archive.by_name(name) {
        Ok(mut entry) => {
            let mut bytes: Vec<u8> = Vec::new();
            match std::io::Read::read_to_end(&mut entry, &mut bytes) {
                Ok(_) => Ok(bytes),
                Err(err) => Err(EntryReadError::ReadFailed(err.to_string())),
            }
        },
        Err(zip::result::ZipError::FileNotFound) => Err(EntryReadError::NotFound),
        Err(err) => Err(EntryReadError::ReadFailed(err.to_string())),
    }
}

/// Why a byte buffer could not be opened as a container: its bytes do not
/// parse as a zip archive.
#[derive(Debug)]
pub struct InvalidContainer {
    /// The parser's own description of what was wrong with the bytes.
    pub detail: String,
}

/// What one extraction attempt came to.
pub enum ExtractOutcome {
    /// The entry was found: its stored bytes, in full.
    Extracted(Vec<u8>),
    /// A required entry is absent: a warning is owed.
    MissingRequired,
    /// An optional entry is absent: a silent skip.
    MissingOptional,
    /// The entry is present, but its contents could not be read out; the
    /// reader's own error text. Fatal to this one extraction only.
    ReadFailed(String),
}

/// A zip-format container opened from a byte buffer. Once constructed, entry
/// lookups by full name are deterministic and repeatable: no operation here
/// changes the set of entries.
pub struct Container {
    archive: zip::ZipArchive<std::io::Cursor<Vec<u8>>>,
}

impl Container {
    /// The container's index: each full entry name mapped to that entry's
    /// stored contents.
    pub closed spec fn entries(self) -> Map<Seq<char>, Seq<u8>> {
        archive_entries(self.archive)
    }

    /// Whether the entry of full name `name` is present and its contents
    /// read out in full: a fixed property of the container's bytes, not of
    /// anything outside them.
    pub closed spec fn readable(self, name: Seq<char>) -> bool {
        entry_readable(self.archive, name)
    }

    /// Opens `data` as a zip-format container. Fails exactly on bytes that
    /// do not parse as one, and then reports the parser's own error text; on
    /// success the container's entries are the parsed index.
    pub fn open(data: Vec<u8>) -> (r: Result<Container, InvalidContainer>)
        ensures
            r matches Ok(container) ==> zip_index(data@) matches Some(index)
                && container.entries() == index,
            r is Err <==> zip_index(data@) is None,
    {
        match open_archive(data) {
            Ok(archive) => Ok(Container { archive }),
            Err(detail) => Err(InvalidContainer { detail }),
        }
    }

    /// Looks up `name` (a case-sensitive, full-path match) and hands back the
    /// entry's stored bytes unchanged, or else what the missing-entry policy
    /// prescribes: a warned miss for a required entry, a silent one for an
    /// optional entry. Success is owed exactly on a present, readable entry;
    /// a present entry that cannot be read out fails this one extraction
    /// alone. The container's entries and their readability are left as they
    /// were, so lookups are repeatable and order-insensitive.
    pub fn extract(&mut self, name: &str, required: bool) -> (r: ExtractOutcome)
        ensures
            final(self).entries() == old(self).entries(),
            forall|n: Seq<char>| final(self).readable(n) == old(self).readable(n),
            (r is Extracted) <==> (old(self).entries().contains_key(name@) && old(self).readable(
                name@,
            )),
            r matches ExtractOutcome::Extracted(bytes) ==> bytes@ == old(self).entries()[name@],
            (r is MissingRequired) <==> (!old(self).entries().contains_key(name@) && required),
            (r is MissingOptional) <==> (!old(self).entries().contains_key(name@) && !required),
            (r is ReadFailed) <==> (old(self).entries().contains_key(name@) && !old(self).readable(
                name@,
            )),
    {
        match read_entry(&mut self.archive, name) {
            Ok(bytes) => ExtractOutcome::Extracted(bytes),
            Err(EntryReadError::NotFound) => {
                if required {
                    ExtractOutcome::MissingRequired
                } else {
                    ExtractOutcome::MissingOptional
                }
            },
            Err(EntryReadError::ReadFailed(detail)) => ExtractOutcome::ReadFailed(detail),
        }
    }
}

} // verus!
