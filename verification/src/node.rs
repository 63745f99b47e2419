//! Node views: a lightweight handle over one record of the node table,
//! child iteration, and ordered child lookup.

use vstd::prelude::*;

use crate::audio::Audio;
use crate::bitmap::Bitmap;
use crate::file::File;
use crate::order::{lex_lt, lemma_lex_irrefl, lemma_lex_trans, lex_cmp};
use crate::repr;
use crate::repr::Type;

verus! {

/// A node in an NX file: a borrow of the file plus the index of the record
/// the node stands for. Copying a node copies the handle, never file data.
#[derive(Clone, Copy)]
pub struct Node<'a> {
    file: &'a File,
    index: u64,
}

/// The record index of child `k` of the node at record `i`.
pub open spec fn child_idx(d: Seq<u8>, i: int, k: int) -> int {
    repr::node_rec(d, i).children + k
}

/// The number of children of the node at record `i`.
pub open spec fn child_count(d: Seq<u8>, i: int) -> int {
    repr::node_rec(d, i).count as int
}

/// The name bytes of the node at record `i`.
pub open spec fn node_name(d: Seq<u8>, i: int) -> Seq<u8> {
    repr::str_at(d, repr::node_rec(d, i).name as int)
}

/// The name bytes of child `k` of the node at record `i`.
pub open spec fn child_name(d: Seq<u8>, i: int, k: int) -> Seq<u8> {
    node_name(d, child_idx(d, i, k))
}

/// The children of the node at record `i` are sorted in strictly ascending
/// byte-lexicographic order of their names. The format guarantees this for
/// every node of an intact file; ordered lookup relies on it.
pub open spec fn children_sorted(d: Seq<u8>, i: int) -> bool {
    forall|j: int, k: int|
        0 <= j < k < child_count(d, i) ==> lex_lt(
            #[trigger] child_name(d, i, j),
            #[trigger] child_name(d, i, k),
        )
}

/// Some child of the node at record `i` is named `q`.
pub open spec fn has_child_named(d: Seq<u8>, i: int, q: Seq<u8>) -> bool {
    exists|k: int| 0 <= k < child_count(d, i) && #[trigger] child_name(d, i, k) == q
}

/// Strict sorting makes child names unique: among the children of a sorted
/// node, a name identifies exactly one slot. Together with the contract of
/// `get`, looking up the name of child `k` returns child `k` itself.
pub proof fn lemma_lookup_identity(d: Seq<u8>, i: int, k: int)
    requires
        children_sorted(d, i),
        0 <= k < child_count(d, i),
    ensures
        forall|j: int|
            0 <= j < child_count(d, i) && #[trigger] child_name(d, i, j) == child_name(d, i, k)
                ==> j == k,
{
    assert forall|j: int|
        0 <= j < child_count(d, i) && #[trigger] child_name(d, i, j) == child_name(d, i, k)
        implies j == k by {
        if j != k {
            lemma_lex_irrefl(child_name(d, i, k));
        }
    }
}

/// Sorting of the children is exactly an ordering of each consecutive pair:
/// sibling `k` always comes strictly before sibling `k + 1`, and that
/// suffices for the whole family to be pairwise ordered.
pub proof fn lemma_consecutive_sorted(d: Seq<u8>, i: int)
    ensures
        children_sorted(d, i) <==> (forall|k: int|
            0 <= k < child_count(d, i) - 1 ==> lex_lt(
                #[trigger] child_name(d, i, k),
                child_name(d, i, k + 1),
            )),
{
    if forall|k: int|
        0 <= k < child_count(d, i) - 1 ==> lex_lt(
            #[trigger] child_name(d, i, k),
            child_name(d, i, k + 1),
        ) {
        assert forall|j: int, k: int| 0 <= j < k < child_count(d, i) implies lex_lt(
            #[trigger] child_name(d, i, j),
            #[trigger] child_name(d, i, k),
        ) by {
            lemma_sorted_span(d, i, j, k);
        }
    }
}

/// Chains the consecutive orderings from sibling `j` up to sibling `k`.
proof fn lemma_sorted_span(d: Seq<u8>, i: int, j: int, k: int)
    requires
        forall|m: int|
            0 <= m < child_count(d, i) - 1 ==> lex_lt(
                #[trigger] child_name(d, i, m),
                child_name(d, i, m + 1),
            ),
        0 <= j < k < child_count(d, i),
    ensures
        lex_lt(child_name(d, i, j), child_name(d, i, k)),
    decreases k - j,
{
    if j + 1 < k {
        lemma_sorted_span(d, i, j, k - 1);
        lemma_lex_trans(child_name(d, i, j), child_name(d, i, k - 1), child_name(d, i, k));
    }
}

/// A type tag denotes exactly one node type: the typed accessors, each of
/// which returns a present value precisely when `dtype` decodes to its own
/// type, are mutually exclusive, and all of them are absent exactly on
/// `Type::Empty`.
pub proof fn lemma_typed_exclusive(dtype: u16)
    ensures
        repr::type_of(dtype) == Type::Empty || repr::type_of(dtype) == Type::Integer
            || repr::type_of(dtype) == Type::Float || repr::type_of(dtype) == Type::String
            || repr::type_of(dtype) == Type::Vector || repr::type_of(dtype) == Type::Bitmap
            || repr::type_of(dtype) == Type::Audio,
{
}

impl<'a> Node<'a> {
    /// The bytes of the file this node belongs to.
    pub closed spec fn d(self) -> Seq<u8> {
        self.file@
    }

    /// The index of the record this node stands for.
    pub closed spec fn idx(self) -> int {
        self.index as int
    }

    /// The node's file was validated at open time.
    pub closed spec fn wf(self) -> bool {
        self.file.wf()
    }

    /// The record this node stands for.
    pub open spec fn rec(self) -> repr::Node {
        repr::node_rec(self.d(), self.idx())
    }

    /// Creates a node from the file the record is in and the record's index.
    pub fn construct(file: &'a File, index: u64) -> (r: Node<'a>)
        requires
            file.wf(),
        ensures
            r.wf(),
            r.d() == file@,
            r.idx() == index as int,
    {
        Node { file, index }
    }

    /// Gets whether or not the node is empty (has no children).
    pub fn is_empty(&self) -> (r: bool)
        requires
            self.wf(),
        ensures
            r <==> child_count(self.d(), self.idx()) == 0,
    {
        self.file.node_at(self.index).count == 0
    }

    /// Gets the name of this node from the string table, as raw UTF-8 bytes.
    pub fn name(&self) -> (r: &'a [u8])
        requires
            self.wf(),
        ensures
            r@ == node_name(self.d(), self.idx()),
    {
        let rec = self.file.node_at(self.index);
        self.file.get_str(rec.name)
    }

    /// Gets an iterator over this node's children.
    pub fn iter(&self) -> (r: Nodes<'a>)
        requires
            self.wf(),
        ensures
            r.wf(),
            r.d() == self.d(),
            r.cursor() == child_idx(self.d(), self.idx(), 0),
            r.remaining() == child_count(self.d(), self.idx()),
    {
        let rec = self.file.node_at(self.index);
        Nodes { file: self.file, cursor: rec.children as u64, count: rec.count }
    }
}

/// A forward iterator over a range of sibling nodes. It yields exactly as
/// many nodes as the owning record's child count, in storage order.
pub struct Nodes<'a> {
    file: &'a File,
    cursor: u64,
    count: u16,
}

impl<'a> Nodes<'a> {
    /// The bytes of the file the siblings are in.
    pub closed spec fn d(self) -> Seq<u8> {
        self.file@
    }

    /// The record index the iterator stands at.
    pub closed spec fn cursor(self) -> int {
        self.cursor as int
    }

    /// How many nodes are still to be yielded.
    pub closed spec fn remaining(self) -> int {
        self.count as int
    }

    /// The iterator's file was validated at open time, and walking the whole
    /// range keeps the cursor in machine range.
    pub closed spec fn wf(self) -> bool {
        &&& self.file.wf()
        &&& self.cursor + self.count <= u64::MAX
    }

    /// Bounds on the number of nodes still to come: exactly `remaining`.
    pub fn size_hint(&self) -> (r: (usize, Option<usize>))
        ensures
            r.0 == self.remaining(),
            r.1 == Some(r.0),
    {
        (self.count as usize, Some(self.count as usize))
    }

    /// Yields the node under the cursor and steps past it, or nothing once
    /// the range is exhausted.
    pub fn next(&mut self) -> (r: Option<Node<'a>>)
        requires
            old(self).wf(),
        ensures
            final(self).wf(),
            final(self).d() == old(self).d(),
            old(self).remaining() == 0 ==> r is None && *final(self) == *old(self),
            old(self).remaining() > 0 ==> {
                &&& r matches Some(c) && c.wf() && c.d() == old(self).d() && c.idx() == old(
                    self,
                ).cursor()
                &&& final(self).cursor() == old(self).cursor() + 1
                &&& final(self).remaining() == old(self).remaining() - 1
            },
    {
        if self.count == 0 {
            None
        } else {
            self.count = self.count - 1;
            let node = Node { file: self.file, index: self.cursor };
            self.cursor = self.cursor + 1;
            Some(node)
        }
    }
}

/// The basic functionality for all nodes, shared by `Node` and
/// `Option<Node>`: an absent node answers every lookup with an absent result
/// and reports type `Empty`, which allows fluent traversal chains without
/// intermediate checks.
pub trait GenericNode<'a> {
    /// The node this handle stands for, when one is present.
    spec fn opt(&self) -> Option<Node<'a>>;

    /// The handle's file, if any, was validated at open time.
    spec fn valid(&self) -> bool;

    /// Gets the child node of the specified name, by binary search over the
    /// ordered siblings. When the children are sorted — as the format
    /// guarantees — the result is the child of that name exactly when one
    /// exists; any returned node is genuinely a child bearing the queried
    /// name.
    fn get(&self, name: &[u8]) -> (r: Option<Node<'a>>)
        requires
            self.valid(),
        ensures
            match self.opt() {
                Some(n) => {
                    &&& (r matches Some(c) ==> c.wf() && c.d() == n.d() && exists|k: int|
                        0 <= k < child_count(n.d(), n.idx()) && c.idx() == child_idx(
                            n.d(),
                            n.idx(),
                            k,
                        ) && #[trigger] child_name(n.d(), n.idx(), k) == name@)
                    &&& (children_sorted(n.d(), n.idx()) ==> ((r is Some) <==> has_child_named(
                        n.d(),
                        n.idx(),
                        name@,
                    )))
                },
                None => r is None,
            },
    ;

    /// Gets the type of this node.
    fn dtype(&self) -> (r: Type)
        requires
            self.valid(),
        ensures
            r == match self.opt() {
                Some(n) => repr::type_of(n.rec().dtype),
                None => Type::Empty,
            },
    ;

    /// Gets the string value of this node, as raw UTF-8 bytes. This will be
    /// `None` if the node is not a string node.
    fn string(&self) -> (r: Option<&'a [u8]>)
        requires
            self.valid(),
        ensures
            match self.opt() {
                Some(n) => {
                    &&& ((r is Some) <==> repr::type_of(n.rec().dtype) == Type::String)
                    &&& (r matches Some(s) ==> s@ == repr::str_at(
                        n.d(),
                        repr::string_index_of(n.rec().data) as int,
                    ))
                },
                None => r is None,
            },
    ;

    /// Gets the integer value of this node. This will be `None` if the node
    /// is not an integer node.
    fn integer(&self) -> (r: Option<i64>)
        requires
            self.valid(),
        ensures
            match self.opt() {
                Some(n) => {
                    &&& ((r is Some) <==> repr::type_of(n.rec().dtype) == Type::Integer)
                    &&& (r matches Some(v) ==> v == repr::integer_of(n.rec().data).value)
                },
                None => r is None,
            },
    ;

    /// Gets the raw IEEE bits of the float value of this node. This will be
    /// `None` if the node is not a float node. The caller reinterprets the
    /// bits as a 64-bit float.
    fn float_bits(&self) -> (r: Option<u64>)
        requires
            self.valid(),
        ensures
            match self.opt() {
                Some(n) => {
                    &&& ((r is Some) <==> repr::type_of(n.rec().dtype) == Type::Float)
                    &&& (r matches Some(v) ==> v == n.rec().data)
                },
                None => r is None,
            },
    ;

    /// Gets the vector value of this node. This will be `None` if the node
    /// is not a vector node.
    fn vector(&self) -> (r: Option<(i32, i32)>)
        requires
            self.valid(),
        ensures
            match self.opt() {
                Some(n) => {
                    &&& ((r is Some) <==> repr::type_of(n.rec().dtype) == Type::Vector)
                    &&& (r matches Some(v) ==> v.0 == repr::vector_of(n.rec().data).x && v.1
                        == repr::vector_of(n.rec().data).y)
                },
                None => r is None,
            },
    ;

    /// Gets the audio value of this node. This will be `None` if the node is
    /// not an audio node.
    fn audio(&self) -> (r: Option<Audio<'a>>)
        requires
            self.valid(),
        ensures
            match self.opt() {
                Some(n) => {
                    &&& ((r is Some) <==> repr::type_of(n.rec().dtype) == Type::Audio)
                    &&& (r matches Some(a) ==> a@ == repr::audio_at(
                        n.d(),
                        repr::audio_ref_of(n.rec().data).index as int,
                        repr::audio_ref_of(n.rec().data).length as int,
                    ))
                },
                None => r is None,
            },
    ;

    /// Gets the bitmap value of this node. This will be `None` if the node
    /// is not a bitmap node.
    fn bitmap(&self) -> (r: Option<Bitmap<'a>>)
        requires
            self.valid(),
        ensures
            match self.opt() {
                Some(n) => {
                    &&& ((r is Some) <==> repr::type_of(n.rec().dtype) == Type::Bitmap)
                    &&& (r matches Some(b) ==> b@ == repr::bitmap_at(
                        n.d(),
                        repr::bitmap_ref_of(n.rec().data).index as int,
                    ) && b.width_spec() == repr::bitmap_ref_of(n.rec().data).width
                        && b.height_spec() == repr::bitmap_ref_of(n.rec().data).height)
                },
                None => r is None,
            },
    ;
}

impl<'a> GenericNode<'a> for Node<'a> {
    open spec fn opt(&self) -> Option<Node<'a>> {
        Some(*self)
    }

    open spec fn valid(&self) -> bool {
        self.wf()
    }

    fn get(&self, name: &[u8]) -> (r: Option<Node<'a>>) {
        let ghost d = self.d();
        let ghost i = self.idx();
        let rec = self.file.node_at(self.index);
        let base: u64 = rec.children as u64;
        let mut lo: u16 = 0;
        let mut hi: u16 = rec.count;
        while lo < hi
            invariant
                self.wf(),
                self.d() == d,
                self.idx() == i,
                base == repr::node_rec(d, i).children,
                0 <= lo <= hi <= child_count(d, i),
                children_sorted(d, i) ==> forall|k: int|
                    0 <= k < lo ==> lex_lt(#[trigger] child_name(d, i, k), name@),
                children_sorted(d, i) ==> forall|k: int|
                    hi <= k < child_count(d, i) ==> lex_lt(name@, #[trigger] child_name(d, i, k)),
            decreases hi - lo,
        {
            let mid = lo + (hi - lo) / 2;
            let child_rec = self.file.node_at(base + mid as u64);
            let other = self.file.get_str(child_rec.name);
            assert(other@ == child_name(d, i, mid as int));
            let c = lex_cmp(other, name);
            if c == -1 {
                proof {
                    if children_sorted(d, i) {
                        assert forall|k: int| 0 <= k < mid as int + 1 implies lex_lt(
                            #[trigger] child_name(d, i, k),
                            name@,
                        ) by {
                            if k < mid as int {
                                lemma_lex_trans(
                                    child_name(d, i, k),
                                    child_name(d, i, mid as int),
                                    name@,
                                );
                            }
                        }
                    }
                }
                lo = mid + 1;
            } else if c == 1 {
                proof {
                    if children_sorted(d, i) {
                        assert forall|k: int| mid as int <= k < child_count(d, i) implies lex_lt(
                            name@,
                            #[trigger] child_name(d, i, k),
                        ) by {
                            if k > mid as int {
                                lemma_lex_trans(
                                    name@,
                                    child_name(d, i, mid as int),
                                    child_name(d, i, k),
                                );
                            }
                        }
                    }
                }
                hi = mid;
            } else {
                let found = Node { file: self.file, index: base + mid as u64 };
                proof {
                    assert(child_name(d, i, mid as int) == name@);
                    assert(found.idx() == child_idx(d, i, mid as int));
                    assert(0 <= (mid as int) && (mid as int) < child_count(d, i) && found.idx()
                        == child_idx(d, i, mid as int) && child_name(d, i, mid as int) == name@);
                    assert(has_child_named(d, i, name@));
                }
                return Some(found);
            }
        }
        proof {
            if children_sorted(d, i) {
                assert forall|k: int| 0 <= k < child_count(d, i) implies #[trigger] child_name(
                    d,
                    i,
                    k,
                ) != name@ by {
                    lemma_lex_irrefl(name@);
                }
            }
        }
        None
    }

    fn dtype(&self) -> (r: Type) {
        repr::decode_type(self.file.node_at(self.index).dtype)
    }

    fn string(&self) -> (r: Option<&'a [u8]>) {
        let rec = self.file.node_at(self.index);
        match repr::decode_type(rec.dtype) {
            Type::String => Some(self.file.get_str(repr::decode_string_index(rec.data))),
            _ => None,
        }
    }

    fn integer(&self) -> (r: Option<i64>) {
        let rec = self.file.node_at(self.index);
        match repr::decode_type(rec.dtype) {
            Type::Integer => Some(repr::decode_integer(rec.data).value),
            _ => None,
        }
    }

    fn float_bits(&self) -> (r: Option<u64>) {
        let rec = self.file.node_at(self.index);
        match repr::decode_type(rec.dtype) {
            Type::Float => Some(rec.data),
            _ => None,
        }
    }

    fn vector(&self) -> (r: Option<(i32, i32)>) {
        let rec = self.file.node_at(self.index);
        match repr::decode_type(rec.dtype) {
            Type::Vector => {
                let v = repr::decode_vector(rec.data);
                Some((v.x, v.y))
            },
            _ => None,
        }
    }

    fn audio(&self) -> (r: Option<Audio<'a>>) {
        let rec = self.file.node_at(self.index);
        match repr::decode_type(rec.dtype) {
            Type::Audio => {
                let a = repr::decode_audio_ref(rec.data);
                Some(Audio::construct(self.file.get_audio(a.index, a.length)))
            },
            _ => None,
        }
    }

    fn bitmap(&self) -> (r: Option<Bitmap<'a>>) {
        let rec = self.file.node_at(self.index);
        match repr::decode_type(rec.dtype) {
            Type::Bitmap => {
                let b = repr::decode_bitmap_ref(rec.data);
                Some(Bitmap::construct(self.file.get_bitmap(b.index), b.width, b.height))
            },
            _ => None,
        }
    }
}

impl<'a> GenericNode<'a> for Option<Node<'a>> {
    open spec fn opt(&self) -> Option<Node<'a>> {
        *self
    }

    open spec fn valid(&self) -> bool {
        match self {
            Some(n) => n.wf(),
            None => true,
        }
    }

    fn get(&self, name: &[u8]) -> (r: Option<Node<'a>>) {
        match self {
            Some(n) => n.get(name),
            None => None,
        }
    }

    fn dtype(&self) -> (r: Type) {
        match self {
            Some(n) => n.dtype(),
            None => Type::Empty,
        }
    }

    fn string(&self) -> (r: Option<&'a [u8]>) {
        match self {
            Some(n) => n.string(),
            None => None,
        }
    }

    fn integer(&self) -> (r: Option<i64>) {
        match self {
            Some(n) => n.integer(),
            None => None,
        }
    }

    fn float_bits(&self) -> (r: Option<u64>) {
        match self {
            Some(n) => n.float_bits(),
            None => None,
        }
    }

    fn vector(&self) -> (r: Option<(i32, i32)>) {
        match self {
            Some(n) => n.vector(),
            None => None,
        }
    }

    fn audio(&self) -> (r: Option<Audio<'a>>) {
        match self {
            Some(n) => n.audio(),
            None => None,
        }
    }

    fn bitmap(&self) -> (r: Option<Bitmap<'a>>) {
        match self {
            Some(n) => n.bitmap(),
            None => None,
        }
    }
}

impl<'a> PartialEq for Node<'a> {
    /// Equality on nodes is identity of the record the handles stand for
    /// within their file, not structural comparison of contents.
    fn eq(&self, other: &Node<'a>) -> (r: bool) {
        self.index == other.index
    }
}

impl<'a> vstd::std_specs::cmp::PartialEqSpecImpl for Node<'a> {
    open spec fn obeys_eq_spec() -> bool {
        true
    }

    open spec fn eq_spec(&self, other: &Node<'a>) -> bool {
        self.idx() == other.idx()
    }
}

impl<'a> Eq for Node<'a> {}

} // verus!
