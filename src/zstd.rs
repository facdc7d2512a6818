//! Decompression of the bundled zstd-compressed data files.
use vstd::prelude::*;

verus! {

/// The upper bound that a zstd frame sequence declares for its decompressed size.
pub uninterp spec fn zstd_bound(data: Seq<u8>) -> Option<u64>;

/// The content that zstd frames decompress to.
pub uninterp spec fn zstd_content(data: Seq<u8>) -> Option<Seq<u8>>;

/// Relies on `zstd_safe::decompress_bound`: the declared upper bound of the
/// decompressed size, or the zstd error code.
#[verifier::external_body]
fn decompress_bound(data: &[u8]) -> (r: Result<u64, usize>)
    ensures
        r is Ok <==> zstd_bound(data@) is Some,
        r matches Ok(b) ==> zstd_bound(data@) == Some(b),
{
    zstd_safe::decompress_bound(data)
}

/// Relies on `zstd_safe::decompress` into a buffer of `capacity` bytes: where
/// it succeeds, the buffer holds the decompressed content.
#[verifier::external_body]
fn decompress_into(capacity: usize, data: &[u8]) -> (r: Result<Vec<u8>, usize>)
    ensures
        r matches Ok(v) ==> zstd_content(data@) == Some(v@),
{
    let mut out: Vec<u8> = vec![0u8; capacity];
    zstd_safe::decompress(&mut out[..], data).map(|written| {
        out.truncate(written);
        out
    })
}

/// Why compressed data could not be read.
#[derive(Clone, Copy, Debug, PartialEq, Eq, Structural)]
pub enum ZstdError {
    /// The data declares no bound; the zstd error code.
    Bound(usize),
    /// The declared bound does not fit in memory.
    TooLarge,
    /// Decompression failed; the zstd error code.
    Decompress(usize),
}

/// Decompresses `data` into a buffer of the size it declares. Fails where it declares no
/// size, where that size does not fit in memory, or where the frames do not decompress.
pub fn decode_zstd(data: &[u8]) -> (r: Result<Vec<u8>, ZstdError>)
    ensures
        zstd_bound(data@) is None ==> r matches Err(ZstdError::Bound(_)),
        zstd_bound(data@) matches Some(b) && b > usize::MAX ==> r matches Err(ZstdError::TooLarge),
        r matches Ok(v) ==> zstd_content(data@) == Some(v@),
{
    let bound = match decompress_bound(data) {
        Ok(b) => b,
        Err(code) => {
            return Err(ZstdError::Bound(code));
        },
    };
    if bound > usize::MAX as u64 {
        return Err(ZstdError::TooLarge);
    }
    match decompress_into(bound as usize, data) {
        Ok(v) => Ok(v),
        Err(code) => Err(ZstdError::Decompress(code)),
    }
}

} // verus!
