//! Layer blobs: single-member gzip streams that hold an archive.

use std::io::Read;
use vstd::prelude::*;

use crate::error::ErrorKind;

verus! {

/// `std::io::Error`, the error of flate2's decoder. It is carried, never
/// looked into.
#[verifier::external_type_specification]
#[verifier::external_body]
pub struct ExIoError(std::io::Error);

/// What flate2's decoder for a single gzip member yields for `blob`: the
/// bytes that the first member decompresses to, or `None` where the decoder
/// reports an error, as it does for a member that is cut short, corrupt, or
/// beyond the limits that the decoder sets for a header. What follows the
/// first member is not looked at.
pub uninterp spec fn gzip_member(blob: Seq<u8>) -> Option<Seq<u8>>;

/// Decompresses `blob` with flate2: `flate2::read::GzDecoder::new` over the
/// bytes, read to its end with `read_to_end`.
///
/// Not proved, taken from flate2: what the decoder yields depends on the
/// bytes of `blob` alone, so the result has a name, [`gzip_member`]. The
/// decoder ends after the first member and reports a member that is cut
/// short, or whose checksum or length does not match its trailer, as an
/// error.
#[verifier::external_body]
fn gunzip(blob: &Vec<u8>) -> (r: Result<Vec<u8>, std::io::Error>)
    ensures
        match r {
            Ok(data) => gzip_member(blob@) == Some(data@),
            Err(_) => gzip_member(blob@) is None,
        },
{
    let mut data = Vec::new();
    match flate2::read::GzDecoder::new(blob.as_slice()).read_to_end(&mut data) {
        Ok(_) => Ok(data),
        Err(e) => Err(e),
    }
}

/// Decompresses the blob of a layer into the archive that it holds. A blob
/// that is no intact gzip member is a decode error.
pub fn decompress_layer(blob: &Vec<u8>) -> (r: Result<Vec<u8>, ErrorKind>)
    ensures
        match r {
            Ok(archive) => gzip_member(blob@) == Some(archive@),
            Err(e) => gzip_member(blob@) is None && e == ErrorKind::Decode,
        },
{
    match gunzip(blob) {
        Ok(archive) => Ok(archive),
        Err(_) => Err(ErrorKind::Decode),
    }
}

} // verus!
