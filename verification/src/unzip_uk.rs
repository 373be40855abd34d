//! The GTFS-realtime file inside the archive that the UK bus data service publishes.
use std::io::Read;
use vstd::prelude::*;

verus! {

/// The contents of the entry named `name` of the zip archive `archive`, as the zip crate
/// reads them, or `None` when the archive cannot be read or has no such entry.
pub uninterp spec fn spec_zip_entry(archive: Seq<u8>, name: Seq<char>) -> Option<Seq<u8>>;

/// Calls `zip::ZipArchive::new` on an in-memory buffer, `ZipArchive::by_name` and
/// `read_to_end` on the entry; `None` when any of them fails. The contract names the result.
/// The zip crate returns its errors rather than panicking on the inputs it documents; whether
/// some malformed archive (such as one with an inconsistent extra field) can still make its
/// parser panic is not settled here, and nothing excludes such an input.
#[verifier::external_body]
fn zip_entry(archive: &[u8], name: &str) -> (r: Option<Vec<u8>>)
    ensures
        r is None <==> spec_zip_entry(archive@, name@) is None,
        r matches Some(v) ==> spec_zip_entry(archive@, name@) == Some(v@),
{
    let mut zip = zip::ZipArchive::new(std::io::Cursor::new(archive)).ok()?;
    let mut file = zip.by_name(name).ok()?;
    let mut buf = Vec::new();
    file.read_to_end(&mut buf).ok()?;
    Some(buf)
}

/// The name of the GTFS-realtime entry of the archive.
pub open spec fn gtfs_rt_entry_name() -> Seq<char> {
    "gtfsrt.bin"@
}

/// The bytes of the `gtfsrt.bin` entry of the downloaded archive, or `None` when the archive
/// cannot be read or has no such entry.
pub fn extract_gtfs_rt(archive: &[u8]) -> (r: Option<Vec<u8>>)
    ensures
        r is None <==> spec_zip_entry(archive@, gtfs_rt_entry_name()) is None,
        r matches Some(v) ==> spec_zip_entry(archive@, gtfs_rt_entry_name()) == Some(v@),
{
    zip_entry(archive, "gtfsrt.bin")
}

} // verus!
