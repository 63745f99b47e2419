//! The LZ4 shim: block decompression as a pure call, used only to expand
//! bitmap pixels.

use vstd::prelude::*;

verus! {

/// What an LZ4 block decompresses to: `Some` of the uncompressed bytes when
/// the block is well formed, `None` when no amount of output room would let
/// it decompress. The result depends on the compressed bytes alone.
pub uninterp spec fn block_decoded(src: Seq<u8>) -> Option<Seq<u8>>;

/// Decompresses the LZ4 block `src` into `dst`, returning the number of
/// bytes produced, or `None` when the block is malformed or `dst` cannot
/// hold the uncompressed data. Bytes of `dst` past the produced length may
/// be overwritten with unspecified values; the length of `dst` never
/// changes.
///
/// Relies on lz4_flex::block::decompress_into: the bytes produced are a
/// function of the compressed input alone; it succeeds exactly when the
/// input is a well-formed block whose uncompressed size fits the output
/// buffer.
#[verifier::external_body]
pub fn decompress(src: &[u8], dst: &mut Vec<u8>) -> (r: Option<usize>)
    ensures
        final(dst)@.len() == old(dst)@.len(),
        match r {
            Some(n) => n <= old(dst)@.len() && block_decoded(src@) == Some(
                final(dst)@.take(n as int),
            ),
            None => block_decoded(src@) matches Some(u) ==> u.len() > old(dst)@.len(),
        },
{
    match lz4_flex::block::decompress_into(src, dst.as_mut_slice()) {
        Ok(n) => Some(n),
        Err(_) => None,
    }
}

} // verus!
