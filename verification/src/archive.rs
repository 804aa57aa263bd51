use vstd::prelude::*;

verus! {

#[verifier::external_type_specification]
#[verifier::external_body]
#[verifier::reject_recursive_types(T)]
pub struct ExCursor<T>(std::io::Cursor<T>);

#[verifier::external_type_specification]
#[verifier::external_body]
#[verifier::reject_recursive_types(R)]
pub struct ExZipArchive<R>(zip::read::ZipArchive<R>);

/// The readable entries of an open archive: each entry name (a
/// forward-slash-separated path internal to the container) mapped to the
/// bytes that a full read of that entry yields. An entry whose contents
/// cannot be read back in full is not in the map.
pub uninterp spec fn archive_contents(
    archive: zip::read::ZipArchive<std::io::Cursor<Vec<u8>>>,
) -> Map<Seq<char>, Seq<u8>>;

/// The readable entries of the archive that `bytes` holds in zip format,
/// or `None` when `bytes` is not a well-formed zip container.
pub uninterp spec fn zip_entries(bytes: Seq<u8>) -> Option<Map<Seq<char>, Seq<u8>>>;

/// Relies on zip::ZipArchive::new: opening an in-memory container succeeds
/// exactly when its central directory is well formed, and the handle then
/// addresses that container's entries.
#[verifier::external_body]
pub(crate) fn open_archive(bytes: Vec<u8>) -> (r: Option<
    zip::read::ZipArchive<std::io::Cursor<Vec<u8>>>,
>)
    ensures
        r is Some <==> zip_entries(bytes@) is Some,
        r matches Some(archive) ==> Some(archive_contents(archive)) == zip_entries(bytes@),
{
    zip::read::ZipArchive::new(std::io::Cursor::new(bytes)).ok()
}

/// Relies on zip::ZipArchive::by_name and std::io::Read::read_to_end:
/// `by_name` locates the entry stored under exactly `name`, and the read
/// returns its whole decompressed contents; neither changes the entries.
#[verifier::external_body]
pub(crate) fn read_entry(
    archive: &mut zip::read::ZipArchive<std::io::Cursor<Vec<u8>>>,
    name: &str,
) -> (r: Option<Vec<u8>>)
    ensures
        archive_contents(*final(archive)) == archive_contents(*old(archive)),
        r is Some <==> archive_contents(*old(archive)).contains_key(name@),
        r matches Some(data) ==> data@ == archive_contents(*old(archive))[name@],
{
    let mut entry = match archive.by_name(name) {
        Ok(e) => e,
        Err(_) => return None,
    };
    let mut data = Vec::new();
    match std::io::Read::read_to_end(&mut entry, &mut data) {
        Ok(_) => Some(data),
        Err(_) => None,
    }
}

} // verus!
