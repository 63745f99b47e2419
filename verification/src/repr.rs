//! The packed, little-endian on-disk shapes of an NX file, and their
//! byte-level decoding.
//!
//! Everything here is a pure function of the file's byte sequence. Reads that
//! would fall outside the bytes yield a zeroed record or an empty sequence, so
//! the model is total even on corrupt files.

use vstd::prelude::*;
use vstd::bytes::*;

verus! {

/// The header magic, "PKG4" read little-endian.
pub const MAGIC: u32 = 0x34474B50;

/// Size of the file header in bytes.
pub const HEADER_SIZE: u64 = 52;

/// Size of a node record in bytes.
pub const NODE_SIZE: u64 = 20;

/// An NX file header: counts and offsets of the four tables.
#[derive(Clone, Copy, PartialEq, Eq, Structural, Debug)]
pub struct Header {
    pub magic: u32,
    pub nodecount: u32,
    pub nodeoffset: u64,
    pub stringcount: u32,
    pub stringoffset: u64,
    pub bitmapcount: u32,
    pub bitmapoffset: u64,
    pub audiocount: u32,
    pub audiooffset: u64,
}

/// A node record: name and first-child indices, child count, type tag, and
/// the 8-byte payload interpreted by the tag.
#[derive(Clone, Copy, PartialEq, Eq, Structural, Debug)]
pub struct Node {
    pub name: u32,
    pub children: u32,
    pub count: u16,
    pub dtype: u16,
    pub data: u64,
}

/// The types of NX nodes.
#[derive(Clone, Copy, PartialEq, Eq, Structural, Debug)]
pub enum Type {
    /// A node containing no data.
    Empty,
    /// A node containing integer data.
    Integer,
    /// A node containing floating-point data.
    Float,
    /// A node containing string data.
    String,
    /// A node containing vector (or point) data.
    Vector,
    /// A node containing bitmap data.
    Bitmap,
    /// A node containing audio data.
    Audio,
}

/// An integer payload.
#[derive(Clone, Copy, PartialEq, Eq, Structural, Debug)]
pub struct Integer {
    pub value: i64,
}

/// A vector (point) payload.
#[derive(Clone, Copy, PartialEq, Eq, Structural, Debug)]
pub struct Vector {
    pub x: i32,
    pub y: i32,
}

/// A bitmap payload: index into the bitmap table plus pixel dimensions.
#[derive(Clone, Copy, PartialEq, Eq, Structural, Debug)]
pub struct Bitmap {
    pub index: u32,
    pub width: u16,
    pub height: u16,
}

/// An audio payload: index into the audio table plus byte length.
#[derive(Clone, Copy, PartialEq, Eq, Structural, Debug)]
pub struct Audio {
    pub index: u32,
    pub length: u32,
}

/// The little-endian `u16` stored at byte offset `off`.
pub open spec fn u16_at(d: Seq<u8>, off: int) -> u16 {
    spec_u16_from_le_bytes(d.subrange(off, off + 2))
}

/// The little-endian `u32` stored at byte offset `off`.
pub open spec fn u32_at(d: Seq<u8>, off: int) -> u32 {
    spec_u32_from_le_bytes(d.subrange(off, off + 4))
}

/// The little-endian `u64` stored at byte offset `off`.
pub open spec fn u64_at(d: Seq<u8>, off: int) -> u64 {
    spec_u64_from_le_bytes(d.subrange(off, off + 8))
}

/// The header stored in the first 52 bytes of the file.
pub open spec fn header_of(d: Seq<u8>) -> Header
    recommends
        d.len() >= HEADER_SIZE,
{
    Header {
        magic: u32_at(d, 0),
        nodecount: u32_at(d, 4),
        nodeoffset: u64_at(d, 8),
        stringcount: u32_at(d, 16),
        stringoffset: u64_at(d, 20),
        bitmapcount: u32_at(d, 28),
        bitmapoffset: u64_at(d, 32),
        audiocount: u32_at(d, 40),
        audiooffset: u64_at(d, 44),
    }
}

/// The all-zero node record, returned for reads outside the file.
pub open spec fn zero_node() -> Node {
    Node { name: 0, children: 0, count: 0, dtype: 0, data: 0 }
}

/// The node record at index `i` of the node table, or the zero record when
/// its 20 bytes do not lie within the file.
pub open spec fn node_rec(d: Seq<u8>, i: int) -> Node {
    let base = header_of(d).nodeoffset + NODE_SIZE * i;
    if 0 <= i && base + NODE_SIZE <= d.len() {
        Node {
            name: u32_at(d, base),
            children: u32_at(d, base + 4),
            count: u16_at(d, base + 8),
            dtype: u16_at(d, base + 10),
            data: u64_at(d, base + 12),
        }
    } else {
        zero_node()
    }
}

/// The string at index `i` of the string table: the table entry is a file
/// offset to a `u16` length prefix followed by that many bytes. Empty when
/// any part of the chain falls outside the file.
pub open spec fn str_at(d: Seq<u8>, i: int) -> Seq<u8> {
    let entry = header_of(d).stringoffset + 8 * i;
    if !(0 <= i && entry + 8 <= d.len()) {
        Seq::empty()
    } else {
        let off = u64_at(d, entry) as int;
        if off + 2 > d.len() {
            Seq::empty()
        } else {
            let n = u16_at(d, off) as int;
            if off + 2 + n <= d.len() {
                d.subrange(off + 2, off + 2 + n)
            } else {
                Seq::empty()
            }
        }
    }
}

/// The `length` bytes at the file offset stored at index `i` of the audio
/// table, or empty when out of bounds.
pub open spec fn audio_at(d: Seq<u8>, i: int, length: int) -> Seq<u8> {
    let entry = header_of(d).audiooffset + 8 * i;
    if !(0 <= i && 0 <= length && entry + 8 <= d.len()) {
        Seq::empty()
    } else {
        let off = u64_at(d, entry) as int;
        if off + length <= d.len() {
            d.subrange(off, off + length)
        } else {
            Seq::empty()
        }
    }
}

/// The bytes from the file offset stored at index `i` of the bitmap table to
/// the end of the file, or empty when out of bounds. The blob's own extent is
/// not recorded; the decompressor stops at the end of the compressed stream.
pub open spec fn bitmap_at(d: Seq<u8>, i: int) -> Seq<u8> {
    let entry = header_of(d).bitmapoffset + 8 * i;
    if !(0 <= i && entry + 8 <= d.len()) {
        Seq::empty()
    } else {
        let off = u64_at(d, entry) as int;
        if off <= d.len() {
            d.subrange(off, d.len() as int)
        } else {
            Seq::empty()
        }
    }
}

/// A `u64` payload reinterpreted as a two's-complement signed value.
pub open spec fn as_signed64(u: u64) -> int {
    if u < 0x8000_0000_0000_0000 {
        u as int
    } else {
        u - 0x1_0000_0000_0000_0000
    }
}

/// A `u32` reinterpreted as a two's-complement signed value.
pub open spec fn as_signed32(u: u32) -> int {
    if u < 0x8000_0000 {
        u as int
    } else {
        u - 0x1_0000_0000
    }
}

/// The low 32 bits of a payload.
pub open spec fn low32(data: u64) -> u32 {
    (data % 0x1_0000_0000) as u32
}

/// The high 32 bits of a payload.
pub open spec fn high32(data: u64) -> u32 {
    (data / 0x1_0000_0000) as u32
}

/// An 8-byte payload read as an integer payload.
pub open spec fn integer_of(data: u64) -> Integer {
    Integer { value: as_signed64(data) as i64 }
}

/// An 8-byte payload read as a string payload: a `u32` string-table index in
/// the low 4 bytes, the high 4 bytes being padding.
pub open spec fn string_index_of(data: u64) -> u32 {
    low32(data)
}

/// An 8-byte payload read as a vector payload: `i32 x` then `i32 y`.
pub open spec fn vector_of(data: u64) -> Vector {
    Vector { x: as_signed32(low32(data)) as i32, y: as_signed32(high32(data)) as i32 }
}

/// An 8-byte payload read as a bitmap payload: `u32` index, `u16` width,
/// `u16` height.
pub open spec fn bitmap_ref_of(data: u64) -> Bitmap {
    Bitmap {
        index: low32(data),
        width: ((data / 0x1_0000_0000) % 0x1_0000) as u16,
        height: (data / 0x1_0000_0000_0000) as u16,
    }
}

/// An 8-byte payload read as an audio payload: `u32` index, `u32` length.
pub open spec fn audio_ref_of(data: u64) -> Audio {
    Audio { index: low32(data), length: high32(data) }
}

/// The node type denoted by a type tag; out-of-range tags collapse to
/// `Type::Empty`.
pub open spec fn type_of(dtype: u16) -> Type {
    if dtype == 1 {
        Type::Integer
    } else if dtype == 2 {
        Type::Float
    } else if dtype == 3 {
        Type::String
    } else if dtype == 4 {
        Type::Vector
    } else if dtype == 5 {
        Type::Bitmap
    } else if dtype == 6 {
        Type::Audio
    } else {
        Type::Empty
    }
}

/// Executable decoding of a type tag.
pub fn decode_type(dtype: u16) -> (r: Type)
    ensures
        r == type_of(dtype),
{
    match dtype {
        1 => Type::Integer,
        2 => Type::Float,
        3 => Type::String,
        4 => Type::Vector,
        5 => Type::Bitmap,
        6 => Type::Audio,
        _ => Type::Empty,
    }
}

/// Executable two's-complement reading of a `u64` payload.
pub fn decode_i64(u: u64) -> (r: i64)
    ensures
        r as int == as_signed64(u),
{
    if u < 0x8000_0000_0000_0000 {
        u as i64
    } else {
        ((u - 0x8000_0000_0000_0000) as i64) + i64::MIN
    }
}

/// Executable two's-complement reading of a `u32`.
pub fn decode_i32(u: u32) -> (r: i32)
    ensures
        r as int == as_signed32(u),
{
    if u < 0x8000_0000 {
        u as i32
    } else {
        ((u - 0x8000_0000) as i32) + i32::MIN
    }
}

/// Executable decoding of an integer payload.
pub fn decode_integer(data: u64) -> (r: Integer)
    ensures
        r == integer_of(data),
{
    Integer { value: decode_i64(data) }
}

/// Executable decoding of a string payload.
pub fn decode_string_index(data: u64) -> (r: u32)
    ensures
        r == string_index_of(data),
{
    (data % 0x1_0000_0000) as u32
}

/// Executable decoding of a vector payload.
pub fn decode_vector(data: u64) -> (r: Vector)
    ensures
        r == vector_of(data),
{
    Vector {
        x: decode_i32((data % 0x1_0000_0000) as u32),
        y: decode_i32((data / 0x1_0000_0000) as u32),
    }
}

/// Executable decoding of a bitmap payload.
pub fn decode_bitmap_ref(data: u64) -> (r: Bitmap)
    ensures
        r == bitmap_ref_of(data),
{
    Bitmap {
        index: (data % 0x1_0000_0000) as u32,
        width: ((data / 0x1_0000_0000) % 0x1_0000) as u16,
        height: (data / 0x1_0000_0000_0000) as u16,
    }
}

/// Executable decoding of an audio payload.
pub fn decode_audio_ref(data: u64) -> (r: Audio)
    ensures
        r == audio_ref_of(data),
{
    Audio { index: (data % 0x1_0000_0000) as u32, length: (data / 0x1_0000_0000) as u32 }
}

} // verus!
