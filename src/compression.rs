use vstd::prelude::*;
use crate::error::MangoError;
use crate::meta::CompressionType;

verus! {

/// The gzip stream that flate2 writes for a byte sequence at the default level.
pub uninterp spec fn gzip_of(b: Seq<u8>) -> Seq<u8>;

/// The bytes that a gzip stream stands for, if flate2 can read it.
pub uninterp spec fn gunzip_of(c: Seq<u8>) -> Option<Seq<u8>>;

/// Relies on `flate2::read::GzEncoder` at `Compression::default()`: its header
/// has no time stamp and a fixed system byte, so the stream depends on the
/// bytes alone, and `GzDecoder` reads it back. Reading from memory does not
/// fail.
#[verifier::external_body]
fn gzip_encode(b: &Vec<u8>) -> (r: Vec<u8>)
    ensures
        r@ == gzip_of(b@),
        gunzip_of(r@) == Some(b@),
{
    let mut enc = flate2::read::GzEncoder::new(b.as_slice(), flate2::Compression::default());
    let mut out: Vec<u8> = Vec::new();
    std::io::Read::read_to_end(&mut enc, &mut out).expect("reading from memory");
    out
}

/// Relies on `flate2::read::GzDecoder`: the bytes that a gzip stream stands
/// for, or a failure on a stream that is not gzip.
#[verifier::external_body]
fn gzip_decode(c: &Vec<u8>) -> (r: Option<Vec<u8>>)
    ensures
        match r {
            Some(v) => gunzip_of(c@) == Some(v@),
            None => gunzip_of(c@) is None,
        },
{
    let mut dec = flate2::read::GzDecoder::new(c.as_slice());
    let mut out: Vec<u8> = Vec::new();
    match std::io::Read::read_to_end(&mut dec, &mut out) {
        Ok(_) => Some(out),
        Err(_) => None,
    }
}

/// What compressing with an algorithm gives.
pub open spec fn compressed(t: CompressionType, b: Seq<u8>) -> Seq<u8> {
    match t {
        CompressionType::GZIP => gzip_of(b),
    }
}

/// What uncompressing with an algorithm gives, if the input is valid for it.
pub open spec fn uncompressed(t: CompressionType, c: Seq<u8>) -> Option<Seq<u8>> {
    match t {
        CompressionType::GZIP => gunzip_of(c),
    }
}

/// Compresses bytes with the chosen algorithm. Never fails, and
/// `uncompress` with the same algorithm gives the bytes back.
pub fn compress(t: CompressionType, payload: &Vec<u8>) -> (r: Vec<u8>)
    ensures
        r@ == compressed(t, payload@),
        uncompressed(t, r@) == Some(payload@),
{
    match t {
        CompressionType::GZIP => gzip_encode(payload),
    }
}

/// Inverts `compress`; `CorruptPayload` where the input is not valid for the
/// algorithm.
pub fn uncompress(t: CompressionType, payload: &Vec<u8>) -> (r: Result<Vec<u8>, MangoError>)
    ensures
        match uncompressed(t, payload@) {
            Some(b) => r is Ok && r->Ok_0@ == b,
            None => r == Err::<Vec<u8>, MangoError>(MangoError::CorruptPayload),
        },
{
    let d = match t {
        CompressionType::GZIP => gzip_decode(payload),
    };
    match d {
        Some(v) => Ok(v),
        None => Err(MangoError::CorruptPayload),
    }
}

} // verus!
