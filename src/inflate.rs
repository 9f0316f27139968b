//! zlib decompression, done by flate2.
use vstd::prelude::*;

verus! {

/// What inflating the zlib stream `data` yields: the decompressed bytes, or
/// `None` where the stream is malformed or truncated.
pub uninterp spec fn zlib_inflated(data: Seq<u8>) -> Option<Seq<u8>>;

/// Relies on flate2's `ZlibDecoder`, read to its end: it decodes the zlib
/// stream at the start of `data`, or fails where that stream is malformed or
/// truncated. The outcome depends on the bytes alone.
#[verifier::external_body]
pub(crate) fn inflate(data: &[u8]) -> (r: Option<Vec<u8>>)
    ensures
        r.is_some() == zlib_inflated(data@).is_some(),
        r.is_some() ==> r.unwrap()@ == zlib_inflated(data@).unwrap(),
{
    let mut out: Vec<u8> = Vec::new();
    match std::io::Read::read_to_end(&mut flate2::read::ZlibDecoder::new(data), &mut out) {
        Ok(_) => Some(out),
        Err(_) => None,
    }
}

} // verus!
