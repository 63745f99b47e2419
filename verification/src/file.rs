//! The NX file accessor: header validation and the primitive table lookups.
//!
//! A `File` owns the raw bytes of an NX file. `from_bytes` validates the
//! header magic and checks the four table offsets against the length; every
//! lookup after that is total, returning a zeroed record or an empty slice
//! for an access that would fall outside the bytes.

use vstd::prelude::*;
use vstd::bytes::*;
use vstd::slice::*;

use crate::repr;
use crate::repr::{Header, HEADER_SIZE, MAGIC, NODE_SIZE};
use crate::node::Node;

verus! {

/// An error occurring while opening an NX file.
#[derive(Debug)]
pub enum Error {
    /// An underlying I/O failure, with its rendered cause.
    Io(String),
    /// A mapping failure distinct from I/O, with its rendered cause.
    Mapping(String),
    /// Magic value in header was incorrect.
    InvalidMagic,
    /// File was too short.
    TooShort,
}

impl Error {
    /// The short description of this error.
    pub open spec fn description_spec(&self) -> Seq<char> {
        match self {
            Error::Io(_) => "An internal I/O error"@,
            Error::Mapping(_) => "An internal mapping error"@,
            Error::InvalidMagic => "Header magic value was invalid"@,
            Error::TooShort => "File was too short for header"@,
        }
    }

    /// A short description of the error kind.
    pub fn description(&self) -> (r: &'static str)
        ensures
            r@ == self.description_spec(),
    {
        match self {
            Error::Io(_) => "An internal I/O error",
            Error::Mapping(_) => "An internal mapping error",
            Error::InvalidMagic => "Header magic value was invalid",
            Error::TooShort => "File was too short for header",
        }
    }

    /// The underlying cause, when one was recorded.
    pub fn cause(&self) -> (r: Option<&str>)
        ensures
            match self {
                Error::Io(s) => r matches Some(c) && c@ == s@,
                Error::Mapping(s) => r matches Some(c) && c@ == s@,
                Error::InvalidMagic => r is None,
                Error::TooShort => r is None,
            },
    {
        match self {
            Error::Io(s) => Some(s.as_str()),
            Error::Mapping(s) => Some(s.as_str()),
            Error::InvalidMagic => None,
            Error::TooShort => None,
        }
    }
}

/// The four table offsets of the header lie within the file.
pub open spec fn tables_in_bounds(d: Seq<u8>) -> bool {
    &&& repr::header_of(d).nodeoffset <= d.len()
    &&& repr::header_of(d).stringoffset <= d.len()
    &&& repr::header_of(d).audiooffset <= d.len()
    &&& repr::header_of(d).bitmapoffset <= d.len()
}

/// The bytes form an openable NX file: room for the header, the right magic,
/// and table offsets within bounds.
pub open spec fn valid_file(d: Seq<u8>) -> bool {
    &&& d.len() >= HEADER_SIZE
    &&& repr::header_of(d).magic == MAGIC
    &&& tables_in_bounds(d)
}

/// An NX file held in memory.
pub struct File {
    data: Vec<u8>,
    header: Header,
}

impl View for File {
    type V = Seq<u8>;

    closed spec fn view(&self) -> Seq<u8> {
        self.data@
    }
}

impl File {
    /// The file was validated at open time: the bytes form a valid NX file
    /// and the cached header is the one stored in them.
    pub closed spec fn wf(&self) -> bool {
        &&& valid_file(self.data@)
        &&& self.header == repr::header_of(self.data@)
    }

    /// Validates the given bytes as an NX file and takes ownership of them.
    /// Fails with `TooShort` when the bytes cannot hold the header or a table
    /// offset points past the end, and with `InvalidMagic` when the magic
    /// does not match.
    pub fn from_bytes(data: Vec<u8>) -> (r: Result<File, Error>)
        ensures
            match r {
                Ok(f) => valid_file(data@) && f.wf() && f@ == data@,
                Err(e) => !valid_file(data@) && match e {
                    Error::TooShort => data@.len() < HEADER_SIZE
                        || (repr::header_of(data@).magic == MAGIC && !tables_in_bounds(data@)),
                    Error::InvalidMagic => data@.len() >= HEADER_SIZE
                        && repr::header_of(data@).magic != MAGIC,
                    _ => false,
                },
            },
            valid_file(data@) <==> r is Ok,
    {
        if data.len() < 52 {
            return Err(Error::TooShort);
        }
        let header = read_header(data.as_slice());
        if header.magic != MAGIC {
            return Err(Error::InvalidMagic);
        }
        let len64 = data.len() as u64;
        if header.nodeoffset > len64 || header.stringoffset > len64 || header.audiooffset > len64
            || header.bitmapoffset > len64 {
            return Err(Error::TooShort);
        }
        Ok(File { data, header })
    }

    /// The file header.
    pub fn header(&self) -> (h: Header)
        requires
            self.wf(),
        ensures
            h == repr::header_of(self@),
    {
        self.header
    }

    /// Number of nodes in the file.
    pub fn node_count(&self) -> (n: u32)
        requires
            self.wf(),
        ensures
            n == repr::header_of(self@).nodecount,
    {
        self.header.nodecount
    }

    /// The root node of the file: record 0 of the node table.
    pub fn root<'a>(&'a self) -> (r: Node<'a>)
        requires
            self.wf(),
        ensures
            r.wf(),
            r.d() == self@,
            r.idx() == 0,
    {
        Node::construct(self, 0)
    }

    /// The node record at `index` in the node table; the zero record when the
    /// record does not lie within the file.
    pub fn get_node(&self, index: u32) -> (r: repr::Node)
        requires
            self.wf(),
        ensures
            r == repr::node_rec(self@, index as int),
    {
        self.node_at(index as u64)
    }

    /// As `get_node`, for indices past `u32` range (a child range may end
    /// beyond it).
    pub(crate) fn node_at(&self, index: u64) -> (r: repr::Node)
        requires
            self.wf(),
        ensures
            r == repr::node_rec(self@, index as int),
    {
        let len64 = self.data.len() as u64;
        if let Some(rel) = index.checked_mul(NODE_SIZE) {
            if let Some(end) = rel.checked_add(NODE_SIZE) {
                if end <= len64 - self.header.nodeoffset {
                    let base = (self.header.nodeoffset + rel) as usize;
                    return repr::Node {
                        name: u32_from_le_bytes(slice_subrange(self.data.as_slice(), base, base + 4)),
                        children: u32_from_le_bytes(
                            slice_subrange(self.data.as_slice(), base + 4, base + 8),
                        ),
                        count: u16_from_le_bytes(
                            slice_subrange(self.data.as_slice(), base + 8, base + 10),
                        ),
                        dtype: u16_from_le_bytes(
                            slice_subrange(self.data.as_slice(), base + 10, base + 12),
                        ),
                        data: u64_from_le_bytes(
                            slice_subrange(self.data.as_slice(), base + 12, base + 20),
                        ),
                    };
                }
            }
        }
        repr::Node { name: 0, children: 0, count: 0, dtype: 0, data: 0 }
    }

    /// The string at `index` in the string table, as raw UTF-8 bytes; empty
    /// when the entry or the bytes it points at fall outside the file.
    pub fn get_str<'a>(&'a self, index: u32) -> (r: &'a [u8])
        requires
            self.wf(),
        ensures
            r@ == repr::str_at(self@, index as int),
    {
        let len64 = self.data.len() as u64;
        let rel = (index as u64) * 8;
        if rel + 8 <= len64 - self.header.stringoffset {
            let entry = (self.header.stringoffset + rel) as usize;
            let off64 = u64_from_le_bytes(slice_subrange(self.data.as_slice(), entry, entry + 8));
            if off64 <= len64 - 2 {
                let off = off64 as usize;
                let n = u16_from_le_bytes(slice_subrange(self.data.as_slice(), off, off + 2));
                if (n as u64) <= len64 - off64 - 2 {
                    return slice_subrange(self.data.as_slice(), off + 2, off + 2 + n as usize);
                }
            }
        }
        slice_subrange(self.data.as_slice(), 0, 0)
    }

    /// The `length` bytes of audio data at `index` in the audio table; empty
    /// when out of bounds.
    pub fn get_audio<'a>(&'a self, index: u32, length: u32) -> (r: &'a [u8])
        requires
            self.wf(),
        ensures
            r@ == repr::audio_at(self@, index as int, length as int),
    {
        let len64 = self.data.len() as u64;
        let rel = (index as u64) * 8;
        if rel + 8 <= len64 - self.header.audiooffset {
            let entry = (self.header.audiooffset + rel) as usize;
            let off64 = u64_from_le_bytes(slice_subrange(self.data.as_slice(), entry, entry + 8));
            if (length as u64) <= len64 && off64 <= len64 - (length as u64) {
                let off = off64 as usize;
                return slice_subrange(self.data.as_slice(), off, off + length as usize);
            }
        }
        slice_subrange(self.data.as_slice(), 0, 0)
    }

    /// The bitmap blob at `index` in the bitmap table: the bytes from the
    /// stored offset to the end of the file, the compressed stream's own end
    /// lying inside them; empty when out of bounds.
    pub fn get_bitmap<'a>(&'a self, index: u32) -> (r: &'a [u8])
        requires
            self.wf(),
        ensures
            r@ == repr::bitmap_at(self@, index as int),
    {
        let len64 = self.data.len() as u64;
        let rel = (index as u64) * 8;
        if rel + 8 <= len64 - self.header.bitmapoffset {
            let entry = (self.header.bitmapoffset + rel) as usize;
            let off64 = u64_from_le_bytes(slice_subrange(self.data.as_slice(), entry, entry + 8));
            if off64 <= len64 {
                return slice_subrange(self.data.as_slice(), off64 as usize, self.data.len());
            }
        }
        slice_subrange(self.data.as_slice(), 0, 0)
    }
}

/// Reads the header stored in the first 52 bytes.
fn read_header(d: &[u8]) -> (h: Header)
    requires
        d@.len() >= HEADER_SIZE,
    ensures
        h == repr::header_of(d@),
{
    Header {
        magic: u32_from_le_bytes(slice_subrange(d, 0, 4)),
        nodecount: u32_from_le_bytes(slice_subrange(d, 4, 8)),
        nodeoffset: u64_from_le_bytes(slice_subrange(d, 8, 16)),
        stringcount: u32_from_le_bytes(slice_subrange(d, 16, 20)),
        stringoffset: u64_from_le_bytes(slice_subrange(d, 20, 28)),
        bitmapcount: u32_from_le_bytes(slice_subrange(d, 28, 32)),
        bitmapoffset: u64_from_le_bytes(slice_subrange(d, 32, 40)),
        audiocount: u32_from_le_bytes(slice_subrange(d, 40, 44)),
        audiooffset: u64_from_le_bytes(slice_subrange(d, 44, 52)),
    }
}

} // verus!
