//! Compression of logs and metadata before they are stored.

use vstd::prelude::*;
use vstd::string::StringSliceAdditionalSpecFns;

verus! {

/// The bytes that zlib compression at the best level makes of `data`, as flate2's
/// `ZlibEncoder`, with the backend this build of flate2 uses, writes them.
pub uninterp spec fn zlib_best(data: Seq<u8>) -> Seq<u8>;

#[verifier::external_type_specification]
#[verifier::external_body]
pub struct ExIoError(std::io::Error);

/// Wraps flate2's `ZlibEncoder::new` with `Compression::best()` over a `Vec<u8>`, followed by
/// `Write::write_all` of the bytes and `ZlibEncoder::finish`: one compression of the bytes.
/// Claimed: it succeeds, and the result is the zlib compression of the bytes, which depends on
/// the bytes alone. flate2 reports an error only where the output writer or the compression
/// backend fails; writing to a `Vec` does not fail, and a fresh encoder at a valid level gives
/// the backend no bad parameter.
#[verifier::external_body]
fn zlib_compress(data: &[u8]) -> (r: Result<Vec<u8>, std::io::Error>)
    ensures
        r is Ok,
        r matches Ok(v) ==> v@ == zlib_best(data@),
{
    let mut encoder = flate2::write::ZlibEncoder::new(Vec::new(), flate2::Compression::best());
    std::io::Write::write_all(&mut encoder, data)?;
    encoder.finish()
}

/// The error of a failed compression.
#[derive(Debug)]
pub enum CompressError {
    /// The encoder failed to write.
    Io(std::io::Error),
}

/// Compress the provided string: its UTF-8 bytes, with zlib at the best level. It always
/// succeeds.
pub fn compress(s: &str) -> (r: Result<Vec<u8>, CompressError>)
    ensures
        r is Ok,
        r matches Ok(v) ==> v@ == zlib_best(s.spec_bytes()),
{
    match zlib_compress(s.as_bytes()) {
        Ok(bytes) => Ok(bytes),
        Err(error) => Err(CompressError::Io(error)),
    }
}

} // verus!
