//! Trusted boundary to the compressed-container reader, and the verified
//! all-or-nothing extraction built on it.
//!
//! A downloaded binary payload is a compressed archive; its parse is a
//! function of the payload bytes alone, so the member count and each
//! member are named results of the byte buffer.
use vstd::prelude::*;

use std::io::Read;

verus! {

/// Failure of an archive extraction.
#[derive(Debug, PartialEq, Eq)]
pub enum ArchiveError {
    /// The bytes do not parse as a compressed archive.
    OpenFailed,
    /// The archive parses but one of its members cannot be decompressed.
    ExtractFailed,
}

/// Number of member files of `bytes` read as a compressed archive, or
/// None when the bytes do not parse as one.
pub uninterp spec fn zip_count(bytes: Seq<u8>) -> Option<int>;

/// Name and decompressed contents of member `i` of `bytes` read as a
/// compressed archive, or None when the archive cannot be opened, the
/// index is out of range, or the member is corrupt.
pub uninterp spec fn zip_entry(bytes: Seq<u8>, i: int) -> Option<(Seq<char>, Seq<u8>)>;

/// Relies on zip::ZipArchive::new and zip::ZipArchive::len: opens the
/// archive over the byte buffer and counts its members, reading the
/// central directory of the buffer alone.
#[verifier::external_body]
fn zip_member_count(bytes: &Vec<u8>) -> (r: Option<usize>)
    ensures
        match r {
            Some(n) => zip_count(bytes@) == Some(n as int),
            None => zip_count(bytes@) is None,
        },
{
    match zip::ZipArchive::new(std::io::Cursor::new(bytes.as_slice())) {
        Ok(archive) => Some(archive.len()),
        Err(_) => None,
    }
}

/// Relies on zip::ZipArchive::by_index, zip::read::ZipFile::name and its
/// Read impl: decompresses member `i` of the archive over the byte
/// buffer. Parsing and decompression read the buffer alone.
#[verifier::external_body]
fn zip_member(bytes: &Vec<u8>, i: usize) -> (r: Option<(String, Vec<u8>)>)
    ensures
        match r {
            Some(m) => zip_entry(bytes@, i as int) == Some((m.0@, m.1@)),
            None => zip_entry(bytes@, i as int) is None,
        },
{
    let mut archive = zip::ZipArchive::new(std::io::Cursor::new(bytes.as_slice())).ok()?;
    let mut member = archive.by_index(i).ok()?;
    let name = member.name().to_string();
    let mut contents: Vec<u8> = Vec::new();
    member.read_to_end(&mut contents).ok()?;
    Some((name, contents))
}

/// Decompresses every member of the archive held in `bytes`.
///
/// All or nothing: either every member comes back, in archive order, or
/// an error names what failed and no member is returned.
pub fn extract_archive(bytes: &Vec<u8>) -> (r: Result<Vec<(String, Vec<u8>)>, ArchiveError>)
    ensures
        match r {
            Ok(members) => {
                &&& zip_count(bytes@) == Some(members@.len() as int)
                &&& forall|i: int|
                    0 <= i < members@.len() ==> #[trigger] zip_entry(bytes@, i) == Some(
                        (members@[i].0@, members@[i].1@),
                    )
            },
            Err(ArchiveError::OpenFailed) => zip_count(bytes@) is None,
            Err(ArchiveError::ExtractFailed) => {
                &&& zip_count(bytes@) is Some
                &&& exists|i: int|
                    0 <= i < zip_count(bytes@)->Some_0 && #[trigger] zip_entry(bytes@, i) is None
            },
        },
{
    let count = match zip_member_count(bytes) {
        Some(n) => n,
        None => {
            return Err(ArchiveError::OpenFailed);
        },
    };
    let mut members: Vec<(String, Vec<u8>)> = Vec::new();
    let mut i: usize = 0;
    while i < count
        invariant
            i <= count,
            zip_count(bytes@) == Some(count as int),
            members@.len() == i,
            forall|k: int|
                0 <= k < i ==> #[trigger] zip_entry(bytes@, k) == Some(
                    (members@[k].0@, members@[k].1@),
                ),
        decreases count - i,
    {
        match zip_member(bytes, i) {
            Some(m) => {
                members.push(m);
            },
            None => {
                return Err(ArchiveError::ExtractFailed);
            },
        }
        i = i + 1;
    }
    Ok(members)
}

} // verus!
