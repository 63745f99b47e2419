//! A read-only accessor for NX ("PKG4") container files: a single tree of
//! typed nodes stored little-endian and packed, with side tables for
//! de-duplicated strings, LZ4-compressed bitmaps, and encoded audio blobs.
//!
//! The library works on the raw bytes of a file held in memory. Opening
//! validates the header and the table offsets; after that every operation is
//! total: lookups are bounds-checked and out-of-range accesses yield empty
//! results rather than failing.

pub mod audio;
pub mod bitmap;
pub mod file;
pub mod lz4;
pub mod node;
pub mod order;
pub mod repr;

pub use file::{Error, File};
pub use node::{GenericNode, Node, Nodes};
pub use repr::Type;
