//! Audio leaves: a view of an encoded audio blob, possibly a sound effect
//! or music.

use vstd::prelude::*;

verus! {

/// The length of the wrapper header that precedes the playable stream in a
/// stored audio blob.
pub const AUDIO_HEADER_LEN: usize = 82;

/// Some audio, possibly a sound effect or music: a borrow of the stored
/// blob, whose first 82 bytes are a wrapper header for the source format.
#[derive(Clone, Copy)]
pub struct Audio<'a> {
    data: &'a [u8],
}

impl<'a> View for Audio<'a> {
    type V = Seq<u8>;

    closed spec fn view(&self) -> Seq<u8> {
        self.data@
    }
}

impl<'a> Audio<'a> {
    /// Creates an Audio from the supplied stored blob.
    pub fn construct(data: &'a [u8]) -> (r: Audio<'a>)
        ensures
            r@ == data@,
    {
        Audio { data }
    }

    /// The length of the stored blob, wrapper header included.
    pub fn len(&self) -> (r: usize)
        ensures
            r == self@.len(),
    {
        self.data.len()
    }

    /// Returns the audio data, not including the wrapper header: the stored
    /// bytes with the first 82 skipped.
    pub fn data(&self) -> (r: &'a [u8])
        requires
            self@.len() >= AUDIO_HEADER_LEN,
        ensures
            r@ == self@.skip(AUDIO_HEADER_LEN as int),
            r@.len() == self@.len() - AUDIO_HEADER_LEN,
    {
        vstd::slice::slice_subrange(self.data, AUDIO_HEADER_LEN, self.data.len())
    }
}

} // verus!
