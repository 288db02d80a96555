//! Packing a file into the compressed archive that the runtime's upload
//! facility takes.
use vstd::prelude::*;

verus! {

/// The gzip-compressed tar stream holding one regular file `name` with
/// permission bits `mode` and contents `data`.
pub uninterp spec fn gzip_tar_of(name: Seq<char>, mode: u32, data: Seq<u8>) -> Seq<u8>;

/// Relies on tar's `Header`/`Builder` and flate2's `GzEncoder`: they write
/// the header (path, size, mode, checksum) and the data as one gzip stream.
/// Writing into a `Vec` cannot fail, and `Header::set_path` refuses only an
/// empty, absolute, `..`, NUL-holding or over-long path, so a short plain
/// file name such as `dump.sql` always succeeds.
#[verifier::external_body]
pub(crate) fn single_file_archive(name: &str, mode: u32, data: &Vec<u8>) -> (r: Option<Vec<u8>>)
    ensures
        r matches Some(a) ==> a@ == gzip_tar_of(name@, mode, data@),
        name@ == "dump.sql"@ ==> r is Some,
{
    let mut header = tar::Header::new_gnu();
    header.set_path(name).ok()?;
    header.set_size(data.len() as u64);
    header.set_mode(mode);
    header.set_cksum();
    let encoder = flate2::write::GzEncoder::new(Vec::new(), flate2::Compression::default());
    let mut builder = tar::Builder::new(encoder);
    builder.append(&header, data.as_slice()).ok()?;
    builder.into_inner().ok()?.finish().ok()
}

} // verus!
