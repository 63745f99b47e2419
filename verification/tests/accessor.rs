//! End-to-end tests over hand-built NX file images.

use nx::{Error, File, GenericNode, Type};

/// Builds an NX file image: header, node table, string table, audio table
/// and blobs, bitmap table and blobs. Bitmap blobs are laid out last because
/// a bitmap table entry only records where its blob starts.
struct Builder {
    nodes: Vec<(u32, u32, u16, u16, u64)>,
    strings: Vec<Vec<u8>>,
    audios: Vec<Vec<u8>>,
    bitmaps: Vec<Vec<u8>>,
}

fn push_u16(out: &mut Vec<u8>, v: u16) {
    out.extend_from_slice(&v.to_le_bytes());
}

fn push_u32(out: &mut Vec<u8>, v: u32) {
    out.extend_from_slice(&v.to_le_bytes());
}

fn push_u64(out: &mut Vec<u8>, v: u64) {
    out.extend_from_slice(&v.to_le_bytes());
}

impl Builder {
    fn new() -> Builder {
        Builder { nodes: Vec::new(), strings: Vec::new(), audios: Vec::new(), bitmaps: Vec::new() }
    }

    fn node(mut self, name: u32, children: u32, count: u16, dtype: u16, data: u64) -> Builder {
        self.nodes.push((name, children, count, dtype, data));
        self
    }

    fn string(mut self, s: &str) -> Builder {
        self.strings.push(s.as_bytes().to_vec());
        self
    }

    fn audio(mut self, blob: &[u8]) -> Builder {
        self.audios.push(blob.to_vec());
        self
    }

    fn bitmap(mut self, blob: &[u8]) -> Builder {
        self.bitmaps.push(blob.to_vec());
        self
    }

    fn bytes(self) -> Vec<u8> {
        let nodeoffset = 52u64;
        let stringoffset = nodeoffset + 20 * self.nodes.len() as u64;
        // String data follows the string table.
        let mut stringdata = stringoffset + 8 * self.strings.len() as u64;
        let mut stringoffsets = Vec::new();
        for s in &self.strings {
            stringoffsets.push(stringdata);
            stringdata += 2 + s.len() as u64;
        }
        let audiooffset = stringdata;
        let mut audiodata = audiooffset + 8 * self.audios.len() as u64;
        let mut audiooffsets = Vec::new();
        for a in &self.audios {
            audiooffsets.push(audiodata);
            audiodata += a.len() as u64;
        }
        let bitmapoffset = audiodata;
        let mut bitmapdata = bitmapoffset + 8 * self.bitmaps.len() as u64;
        let mut bitmapoffsets = Vec::new();
        for b in &self.bitmaps {
            bitmapoffsets.push(bitmapdata);
            bitmapdata += b.len() as u64;
        }

        let mut out = Vec::new();
        push_u32(&mut out, 0x34474B50);
        push_u32(&mut out, self.nodes.len() as u32);
        push_u64(&mut out, nodeoffset);
        push_u32(&mut out, self.strings.len() as u32);
        push_u64(&mut out, stringoffset);
        push_u32(&mut out, self.bitmaps.len() as u32);
        push_u64(&mut out, bitmapoffset);
        push_u32(&mut out, self.audios.len() as u32);
        push_u64(&mut out, audiooffset);
        assert_eq!(out.len(), 52);
        for (name, children, count, dtype, data) in &self.nodes {
            push_u32(&mut out, *name);
            push_u32(&mut out, *children);
            push_u16(&mut out, *count);
            push_u16(&mut out, *dtype);
            push_u64(&mut out, *data);
        }
        for off in &stringoffsets {
            push_u64(&mut out, *off);
        }
        for s in &self.strings {
            push_u16(&mut out, s.len() as u16);
            out.extend_from_slice(s);
        }
        for off in &audiooffsets {
            push_u64(&mut out, *off);
        }
        for a in &self.audios {
            out.extend_from_slice(a);
        }
        for off in &bitmapoffsets {
            push_u64(&mut out, *off);
        }
        for b in &self.bitmaps {
            out.extend_from_slice(b);
        }
        out
    }
}

fn open(bytes: Vec<u8>) -> File {
    File::from_bytes(bytes).unwrap()
}

#[test]
fn magic_mismatch_is_rejected() {
    // A 64-byte file whose first 4 bytes read "PKG5".
    let mut bytes = vec![0u8; 64];
    bytes[0] = 0x50;
    bytes[1] = 0x4B;
    bytes[2] = 0x47;
    bytes[3] = 0x35;
    let r = File::from_bytes(bytes);
    assert!(matches!(r, Err(Error::InvalidMagic)));
}

#[test]
fn short_file_is_rejected() {
    let bytes = vec![0u8; 20];
    let r = File::from_bytes(bytes);
    assert!(matches!(r, Err(Error::TooShort)));
}

#[test]
fn table_offset_past_end_is_rejected() {
    let mut bytes = Builder::new().node(0, 0, 0, 0, 0).string("root").bytes();
    let past = (bytes.len() as u64 + 1).to_le_bytes();
    bytes[8..16].copy_from_slice(&past);
    let r = File::from_bytes(bytes);
    assert!(matches!(r, Err(Error::TooShort)));
}

#[test]
fn error_descriptions() {
    assert_eq!(Error::InvalidMagic.description(), "Header magic value was invalid");
    assert_eq!(Error::TooShort.description(), "File was too short for header");
    assert!(Error::InvalidMagic.cause().is_none());
    let io = Error::Io(String::from("permission denied"));
    assert_eq!(io.cause(), Some("permission denied"));
}

#[test]
fn single_empty_root() {
    let file = open(Builder::new().node(0, 0, 0, 0, 0).string("root").bytes());
    assert_eq!(file.node_count(), 1);
    let root = file.root();
    assert_eq!(root.name(), b"root");
    assert!(root.is_empty());
    let mut it = root.iter();
    assert_eq!(it.size_hint(), (0, Some(0)));
    assert!(it.next().is_none());
    assert!(root.get(b"x").is_none());
    assert_eq!(root.dtype(), Type::Empty);
}

#[test]
fn header_fields_round_trip() {
    let file = open(Builder::new().node(0, 0, 0, 0, 0).string("root").bytes());
    let h = file.header();
    assert_eq!(h.magic, 0x34474B50);
    assert_eq!(h.nodecount, 1);
    assert_eq!(h.nodeoffset, 52);
    assert_eq!(h.stringcount, 1);
    assert_eq!(h.stringoffset, 72);
}

fn three_children() -> File {
    open(
        Builder::new()
            .node(0, 1, 3, 0, 0)
            .node(1, 0, 0, 0, 0)
            .node(2, 0, 0, 0, 0)
            .node(3, 0, 0, 0, 0)
            .string("root")
            .string("apple")
            .string("banana")
            .string("cherry")
            .bytes(),
    )
}

#[test]
fn ordered_binary_search() {
    let file = three_children();
    let root = file.root();
    let middle = root.get(b"banana").expect("banana present");
    assert_eq!(middle.name(), b"banana");
    assert!(root.get(b"avocado").is_none());
}

#[test]
fn iteration_is_storage_order() {
    let file = three_children();
    let root = file.root();
    let mut names = Vec::new();
    let mut it = root.iter();
    while let Some(child) = it.next() {
        names.push(child.name().to_vec());
    }
    assert_eq!(names, vec![b"apple".to_vec(), b"banana".to_vec(), b"cherry".to_vec()]);
}

#[test]
fn iteration_length_equals_count() {
    let file = three_children();
    let root = file.root();
    let mut it = root.iter();
    assert_eq!(it.size_hint(), (3, Some(3)));
    let mut yielded: usize = 0;
    while let Some(_) = it.next() {
        yielded += 1;
    }
    assert_eq!(yielded, 3);
    assert!(it.next().is_none());
}

#[test]
fn lookup_returns_identical_child() {
    let file = three_children();
    let root = file.root();
    let mut it = root.iter();
    while let Some(child) = it.next() {
        assert!(root.get(child.name()) == Some(child));
    }
}

#[test]
fn lookup_rejects_absent_names() {
    let file = three_children();
    let root = file.root();
    for name in [&b""[..], b"a", b"appl", b"applf", b"apple0", b"bananaz", b"zzz"] {
        assert!(root.get(name).is_none(), "{:?} should be absent", name);
    }
}

fn typed_children() -> File {
    let vector_data = (3u32 as u64) | (((-7i32) as u32 as u64) << 32);
    open(
        Builder::new()
            .node(0, 1, 4, 0, 0)
            .node(1, 0, 0, 2, 1.5f64.to_bits())
            .node(2, 0, 0, 1, (-42i64) as u64)
            .node(3, 0, 0, 3, 5)
            .node(4, 0, 0, 4, vector_data)
            .string("root")
            .string("f")
            .string("i")
            .string("s")
            .string("v")
            .string("hello")
            .bytes(),
    )
}

#[test]
fn typed_payloads() {
    let file = typed_children();
    let root = file.root();
    assert_eq!(root.get(b"i").integer(), Some(-42));
    assert_eq!(root.get(b"f").float_bits().map(f64::from_bits), Some(1.5));
    assert_eq!(root.get(b"v").vector(), Some((3, -7)));
    assert_eq!(root.get(b"s").string(), Some(&b"hello"[..]));
    assert_eq!(root.get(b"i").dtype(), Type::Integer);
    assert_eq!(root.get(b"f").dtype(), Type::Float);
    assert_eq!(root.get(b"s").dtype(), Type::String);
    assert_eq!(root.get(b"v").dtype(), Type::Vector);
}

#[test]
fn typed_accessors_are_exclusive() {
    let file = typed_children();
    let root = file.root();
    // Cross-type accessors are absent.
    assert!(root.get(b"i").float_bits().is_none());
    assert!(root.get(b"i").string().is_none());
    assert!(root.get(b"i").vector().is_none());
    assert!(root.get(b"i").audio().is_none());
    assert!(root.get(b"i").bitmap().is_none());
    assert!(root.get(b"f").integer().is_none());
    assert!(root.get(b"s").integer().is_none());
    assert!(root.get(b"v").integer().is_none());
    // An absent node answers every accessor with an absent result.
    let missing = root.get(b"missing");
    assert!(missing.is_none());
    assert_eq!(missing.dtype(), Type::Empty);
    assert!(missing.get(b"x").is_none());
    assert!(missing.integer().is_none());
    assert!(missing.float_bits().is_none());
    assert!(missing.string().is_none());
    assert!(missing.vector().is_none());
    assert!(missing.audio().is_none());
    assert!(missing.bitmap().is_none());
    // The empty root of the minimal file answers none from all accessors.
    let empty_file = open(Builder::new().node(0, 0, 0, 0, 0).string("root").bytes());
    let empty = empty_file.root();
    assert_eq!(empty.dtype(), Type::Empty);
    assert!(empty.integer().is_none());
    assert!(empty.float_bits().is_none());
    assert!(empty.string().is_none());
    assert!(empty.vector().is_none());
    assert!(empty.audio().is_none());
    assert!(empty.bitmap().is_none());
}

#[test]
fn bitmap_decode_round_trip() {
    let pixels: [u8; 8] = [1, 2, 3, 4, 5, 6, 7, 8];
    let blob = lz4_flex::block::compress(&pixels);
    assert_ne!(&blob[..], &pixels[..], "compressed stream differs from pixels");
    let bitmap_data = 0u64 | ((2u64) << 32) | ((1u64) << 48);
    let file = open(
        Builder::new()
            .node(0, 1, 1, 0, 0)
            .node(1, 0, 0, 5, bitmap_data)
            .string("root")
            .string("b")
            .bitmap(&blob)
            .bytes(),
    );
    let root = file.root();
    let bmp = root.get(b"b").bitmap().expect("bitmap present");
    assert_eq!(bmp.width(), 2);
    assert_eq!(bmp.height(), 1);
    assert_eq!(bmp.len(), 8);
    let mut buf = vec![0u8; 8];
    assert!(bmp.data(&mut buf));
    assert_eq!(buf, pixels.to_vec());
    // Decoding again produces the same bytes.
    let mut again = vec![0u8; 8];
    assert!(bmp.data(&mut again));
    assert_eq!(again, buf);
    // Swapping channels 0 and 2 of each pixel yields RGBA order.
    for px in buf.chunks_exact_mut(4) {
        px.swap(0, 2);
    }
    assert_eq!(buf, vec![3, 2, 1, 4, 7, 6, 5, 8]);
}

#[test]
fn audio_skips_wrapper_header() {
    let mut blob = vec![0u8; 82];
    blob.extend_from_slice(b"tunes");
    let stored_length = blob.len() as u32;
    let audio_data = 0u64 | ((stored_length as u64) << 32);
    let file = open(
        Builder::new()
            .node(0, 1, 1, 0, 0)
            .node(1, 0, 0, 6, audio_data)
            .string("root")
            .string("a")
            .audio(&blob)
            .bytes(),
    );
    let root = file.root();
    let audio = root.get(b"a").audio().expect("audio present");
    assert_eq!(audio.len(), stored_length as usize);
    let data = audio.data();
    assert_eq!(data.len(), stored_length as usize - 82);
    assert_eq!(data, b"tunes");
}

fn walk(node: nx::Node, visited: &mut usize) {
    *visited += 1;
    let mut it = node.iter();
    while let Some(child) = it.next() {
        assert!(node.get(child.name()) == Some(child));
        walk(child, visited);
    }
}

#[test]
fn deep_tree_traversal() {
    let file = open(
        Builder::new()
            .node(0, 1, 2, 0, 0)
            .node(1, 3, 2, 0, 0)
            .node(2, 5, 1, 0, 0)
            .node(3, 0, 0, 0, 0)
            .node(4, 0, 0, 0, 0)
            .node(5, 0, 0, 0, 0)
            .string("root")
            .string("a")
            .string("b")
            .string("x")
            .string("y")
            .string("z")
            .bytes(),
    );
    let root = file.root();
    assert_eq!(file.node_count(), 6);
    let mut visited: usize = 0;
    walk(root, &mut visited);
    assert_eq!(visited, 6);
    // A grandchild is reachable by chained lookups, and only under its parent.
    let x = root.get(b"a").get(b"x");
    assert!(x.is_some());
    assert_eq!(x.unwrap().name(), b"x");
    assert!(root.get(b"b").get(b"x").is_none());
    assert!(root.get(b"x").is_none());
}

#[test]
fn out_of_range_lookups_are_total() {
    let file = open(Builder::new().node(0, 0, 0, 0, 0).string("root").bytes());
    // A string index past the table yields an empty string.
    assert!(file.get_str(7).is_empty());
    // A node index past the table yields the zero record.
    let rec = file.get_node(99);
    assert_eq!(rec.count, 0);
    assert_eq!(rec.dtype, 0);
    // Audio and bitmap lookups past their tables yield empty views.
    assert!(file.get_audio(3, 10).is_empty());
    assert!(file.get_bitmap(3).is_empty());
}
