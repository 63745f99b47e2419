//! Bitmap leaves: pixel dimensions plus the LZ4-compressed pixel blob.

use vstd::prelude::*;

use crate::lz4;

verus! {

/// Represents a bitmap: its dimensions and a borrow of the compressed pixel
/// data, which decompresses to `width * height * 4` bytes of pixels.
#[derive(Clone, Copy)]
pub struct Bitmap<'a> {
    width: u16,
    height: u16,
    data: &'a [u8],
}

impl<'a> View for Bitmap<'a> {
    type V = Seq<u8>;

    closed spec fn view(&self) -> Seq<u8> {
        self.data@
    }
}

impl<'a> Bitmap<'a> {
    /// The stored width in pixels.
    pub closed spec fn width_spec(&self) -> u16 {
        self.width
    }

    /// The stored height in pixels.
    pub closed spec fn height_spec(&self) -> u16 {
        self.height
    }

    /// The number of bytes of uncompressed pixel data: four per pixel.
    pub open spec fn pix_len(&self) -> int {
        self.width_spec() * self.height_spec() * 4
    }

    /// Creates a `Bitmap` from the compressed data and the dimensions.
    pub fn construct(data: &'a [u8], width: u16, height: u16) -> (r: Bitmap<'a>)
        ensures
            r@ == data@,
            r.width_spec() == width,
            r.height_spec() == height,
    {
        Bitmap { width, height, data }
    }

    /// The width in pixels.
    pub fn width(&self) -> (r: u16)
        ensures
            r == self.width_spec(),
    {
        self.width
    }

    /// The height in pixels.
    pub fn height(&self) -> (r: u16)
        ensures
            r == self.height_spec(),
    {
        self.height
    }

    /// The length of the uncompressed pixel data in bytes.
    pub fn len(&self) -> (r: u32)
        requires
            self.pix_len() <= u32::MAX,
        ensures
            r == self.pix_len(),
    {
        proof {
            assert(self.width_spec() * self.height_spec() * 4 <= u32::MAX ==> self.width_spec()
                * self.height_spec() <= u32::MAX) by (nonlinear_arith);
        }
        self.width as u32 * self.height as u32 * 4
    }

    /// Decompresses the bitmap data into the provided buffer. Returns true
    /// exactly when the stored blob decompresses to the expected
    /// `width * height * 4` bytes — as the format guarantees for intact
    /// files — and then the buffer holds those bytes; the result is the same
    /// on every call.
    pub fn data(&self, out: &mut Vec<u8>) -> (r: bool)
        requires
            old(out)@.len() == self.pix_len(),
        ensures
            final(out)@.len() == old(out)@.len(),
            r <==> (lz4::block_decoded(self@) matches Some(u) && u.len() == self.pix_len()),
            r ==> lz4::block_decoded(self@) == Some(final(out)@),
    {
        match lz4::decompress(self.data, out) {
            Some(n) => {
                if n == out.len() {
                    proof {
                        assert(out@.take(n as int) =~= out@);
                    }
                    true
                } else {
                    false
                }
            },
            None => false,
        }
    }
}

} // verus!
