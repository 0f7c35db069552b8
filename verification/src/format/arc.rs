//! ARC archives (U8 archives): a tree of directories and files.
use vstd::prelude::*;
use vstd::utf8::{decode_utf8, valid_utf8};

use crate::error::{corrupted, reason_with_value, EditorError, EditorResult};
use crate::format::brres::{self, expect_magic, magic_at, magic_mismatch, node_is, BRRES_MAGIC};
use crate::format::encoding::{first_zero_from, magic_eq, Deserialize, ReadStringExt};
use crate::inspector::raw::Raw;
use crate::node::defer::{Deferred, DeferredParse};
use crate::node::node::{NodeContents, VirtualNode, VirtualNodeBody, VirtualNodeKind};
use crate::node::refs::{attached, children_attached, VirtualNodeId, VirtualNodeMap};
use crate::shared::util::{can_read, i32_be, u24_be, u32_be, RefCursor};

verus! {

/// Magic of an ARC file.
pub const ARC_MAGIC: [u8; 4] = [0x55, 0xAA, 0x38, 0x2D];

/// The header of an ARC file.
#[derive(Debug, Clone, PartialEq, Eq)]
pub struct Header {
    /// Offset to the first node in the archive.
    pub node_offset: i32,
    /// Size of all nodes including the string table.
    pub size: i32,
    /// File offset of data.
    pub file_offset: i32,
    /// Reserved.
    pub reserved: [i32; 4],
}

/// Where an ARC header can be read at `p`.
pub open spec fn arc_header_ok(s: Seq<u8>, p: int) -> bool {
    can_read(s, p, 32) && magic_at(s, p) == ARC_MAGIC@
}

impl Deserialize for Header {
    fn deserialize(reader: &mut RefCursor) -> (r: EditorResult<Self>)
        ensures
            final(reader).bytes() == old(reader).bytes(),
            ({
                let s = old(reader).bytes();
                let p = old(reader).pos();
                match r {
                    Ok(h) => arc_header_ok(s, p) && h.node_offset == i32_be(s, p + 4) && h.size
                        == i32_be(s, p + 8) && h.file_offset == i32_be(s, p + 12) && h.reserved@
                        == seq![i32_be(s, p + 16), i32_be(s, p + 20), i32_be(s, p + 24), i32_be(s, p + 28)]
                        && final(reader).pos() == p + 32,
                    Err(e) => !arc_header_ok(s, p) && (if can_read(s, p, 4) && magic_at(s, p)
                        != ARC_MAGIC@ {
                        magic_mismatch(s, p, ARC_MAGIC@, e)
                    } else {
                        e is IoError
                    }),
                }
            }),
    {
        expect_magic(reader, ARC_MAGIC)?;
        let node_offset = reader.read_i32()?;
        let size = reader.read_i32()?;
        let file_offset = reader.read_i32()?;
        let r0 = reader.read_i32()?;
        let r1 = reader.read_i32()?;
        let r2 = reader.read_i32()?;
        let r3 = reader.read_i32()?;
        let reserved = [r0, r1, r2, r3];
        Ok(Header { node_offset, size, file_offset, reserved })
    }
}

/// Whether a node is a file or a directory.
#[derive(Debug, Copy, Clone, PartialEq, Eq, PartialOrd, Ord)]
pub enum NodeType {
    File,
    Directory,
}

impl NodeType {
    /// The node type with code `value`: 0 for a file, 1 for a directory.
    pub fn try_from(value: u8) -> (r: EditorResult<Self>)
        ensures
            match r {
                Ok(t) => value <= 1 && t == (if value == 0 {
                    NodeType::File
                } else {
                    NodeType::Directory
                }),
                Err(e) => value > 1 && e is Corrupted,
            },
    {
        match value {
            0 => Ok(NodeType::File),
            1 => Ok(NodeType::Directory),
            v => Err(
                corrupted(
                    reason_with_value(
                        "arc node type is expected to be either 0 (file) or 1 (directory), got ",
                        v as u64,
                        "",
                    ),
                    None,
                ),
            ),
        }
    }
}

impl Deserialize for NodeType {
    fn deserialize(reader: &mut RefCursor) -> (r: EditorResult<Self>)
        ensures
            final(reader).bytes() == old(reader).bytes(),
            ({
                let s = old(reader).bytes();
                let p = old(reader).pos();
                match r {
                    Ok(t) => can_read(s, p, 1) && s[p] <= 1 && t == (if s[p] == 0 {
                        NodeType::File
                    } else {
                        NodeType::Directory
                    }) && final(reader).pos() == p + 1,
                    Err(e) => if !can_read(s, p, 1) {
                        e is IoError
                    } else {
                        s[p] > 1 && e is Corrupted
                    },
                }
            }),
    {
        let b = reader.read_u8()?;
        Self::try_from(b)
    }
}

/// Exact size of a single ARC node.
pub const ARC_NODE_SIZE: u64 = 0x0c;

/// What a node of an archive holds.
pub enum NodeContent {
    /// A file; `data` sees the archive from the start of the file on.
    File { data: RefCursor },
    /// A directory; its children are the nodes before index `skip_node`.
    Directory { parent: u32, skip_node: u32 },
}

impl NodeContent {
    pub fn is_directory(&self) -> (r: bool)
        ensures
            r == (self is Directory),
    {
        match self {
            NodeContent::Directory { .. } => true,
            NodeContent::File { .. } => false,
        }
    }
}

/// A node of an archive: a named file or directory.
pub struct Node {
    pub name: String,
    pub data: NodeContent,
}

/// The bytes of `s` from index `d` on (none where `d` lies past the end).
pub open spec fn tail_from(s: Seq<u8>, d: int) -> Seq<u8> {
    if 0 <= d <= s.len() {
        s.subrange(d, s.len() as int)
    } else {
        Seq::empty()
    }
}

/// Where the node at `p` of `s` can be read, with its name in the string pool `pool`.
pub open spec fn arc_node_ok(s: Seq<u8>, p: int, pool: Seq<u8>) -> bool {
    let off = u24_be(s, p + 1) as int;
    &&& can_read(s, p, 12)
    &&& s[p] <= 1
    &&& first_zero_from(pool, off) matches Some(j) && valid_utf8(pool.subrange(off, j))
}

/// Whether `e` is the error that reading the node at `p` of `s` gives where it cannot be
/// read (see [`arc_node_ok`]): the end of the input, an unknown node type, a name
/// without a terminating zero byte in the string pool, or a name that is not UTF-8.
pub open spec fn arc_node_error(s: Seq<u8>, p: int, pool: Seq<u8>, e: EditorError) -> bool {
    let off = u24_be(s, p + 1) as int;
    if !can_read(s, p, 1) {
        e is IoError
    } else if s[p] > 1 {
        e is Corrupted
    } else if !can_read(s, p, 12) {
        e is IoError
    } else if first_zero_from(pool, off) is None {
        e is Corrupted
    } else {
        e is InvalidString
    }
}

/// Whether `n` is the node stored at `p` of `s`, with its name in the string pool `pool`.
pub open spec fn arc_node_is(s: Seq<u8>, p: int, pool: Seq<u8>, n: Node) -> bool {
    let off = u24_be(s, p + 1) as int;
    &&& n.name@ == decode_utf8(pool.subrange(off, first_zero_from(pool, off)->0))
    &&& if s[p] == 1 {
        n.data matches NodeContent::Directory { parent, skip_node } && parent == u32_be(s, p + 4)
            && skip_node == u32_be(s, p + 8)
    } else {
        n.data matches NodeContent::File { data } && data.bytes() == tail_from(s, u32_be(s, p + 4) as int)
            && data.pos() == 0
    }
}

/// Where each field of the value lies: the bytes it is read from.
pub proof fn lemma_arc_node_layout(s: Seq<u8>, p: int, pool: Seq<u8>, n: Node)
    requires
        arc_node_is(s, p, pool, n),
    ensures
        (n.name@ == decode_utf8(pool.subrange((u24_be(s, p + 1) as int), first_zero_from(pool, (u24_be(s, p + 1) as int))->0))),
        (if s[p] == 1 { n.data matches NodeContent::Directory { parent, skip_node } && parent == u32_be(s, p + 4) && skip_node == u32_be(s, p + 8) } else { n.data matches NodeContent::File { data } && data.bytes() == tail_from(s, u32_be(s, p + 4) as int) && data.pos() == 0 }),
{
}

impl Node {
    /// Reads the node at the position of `reader`; its name is read from `string_pool`.
    pub fn deserialize(reader: &mut RefCursor, string_pool: &mut RefCursor) -> (r: EditorResult<Self>)
        ensures
            final(reader).bytes() == old(reader).bytes(),
            final(string_pool).bytes() == old(string_pool).bytes(),
            ({
                let s = old(reader).bytes();
                let p = old(reader).pos();
                let pool = old(string_pool).bytes();
                let off = u24_be(s, p + 1) as int;
                match r {
                    Ok(n) => arc_node_ok(s, p, pool) && arc_node_is(s, p, pool, n) && final(reader).pos()
                        == p + 12,
                    Err(e) => !arc_node_ok(s, p, pool) && arc_node_error(s, p, pool, e),
                }
            }),
    {
        let ty = NodeType::deserialize(reader)?;
        let name_offset = reader.read_u24()?;
        let data1 = reader.read_u32()?;
        let data2 = reader.read_u32()?;
        string_pool.set_position(name_offset as u64);
        let name = string_pool.read_null_string()?;
        let data = match ty {
            NodeType::Directory => NodeContent::Directory { parent: data1, skip_node: data2 },
            NodeType::File => {
                let mut data = reader.clone();
                data.set_position(data1 as u64);
                data.set_tail();
                NodeContent::File { data }
            },
        };
        Ok(Node { name, data })
    }
}

/// The number of the first node after those that directory node `n` contains.
pub open spec fn skip_of(n: Node) -> int {
    match n.data {
        NodeContent::Directory { skip_node, .. } => skip_node as int,
        NodeContent::File { .. } => 0,
    }
}

/// What reading a tree of nodes sees of node `n`: whether it is a directory, where its
/// nodes end, and, for a file, the bytes and position of its data.
pub open spec fn node_view(n: Node) -> (bool, int, Seq<u8>, int) {
    match n.data {
        NodeContent::Directory { skip_node, .. } => (true, skip_node as int, Seq::empty(), 0),
        NodeContent::File { data } => (false, 0, data.bytes(), data.pos()),
    }
}

/// What reading a tree of nodes sees of each node of `nodes`.
pub open spec fn node_views(nodes: Seq<Node>) -> Seq<(bool, int, Seq<u8>, int)> {
    Seq::new(nodes.len(), |k: int| node_view(nodes[k]))
}

/// Where reading the children of a directory stops, when its next child is node `cur`
/// and its nodes end before `skip`: a file is one node, a directory runs to its end.
pub open spec fn arc_scan(v: Seq<(bool, int, Seq<u8>, int)>, cur: int, skip: int) -> int
    decreases v.len() - cur, 1int,
{
    if !(0 <= cur && cur < skip && cur < v.len()) {
        cur
    } else if v[cur].0 {
        let e = arc_dir_end(v, cur);
        if cur < e <= v.len() {
            arc_scan(v, e, skip)
        } else {
            cur
        }
    } else {
        arc_scan(v, cur + 1, skip)
    }
}

/// The number of the first node after directory node `c` and all it contains.
pub open spec fn arc_dir_end(v: Seq<(bool, int, Seq<u8>, int)>, c: int) -> int
    decreases v.len() - c, 0int,
{
    if 0 <= c < v.len() {
        arc_scan(v, c + 1, v[c].1)
    } else {
        c + 1
    }
}

/// The numbers of the nodes that are children of a directory, from its child `cur` on
/// (see [`arc_scan`]).
pub open spec fn arc_children(v: Seq<(bool, int, Seq<u8>, int)>, cur: int, skip: int) -> Seq<int>
    decreases v.len() - cur,
{
    if !(0 <= cur && cur < skip && cur < v.len()) {
        Seq::empty()
    } else if v[cur].0 {
        let e = arc_dir_end(v, cur);
        if cur < e <= v.len() {
            seq![cur].add(arc_children(v, e, skip))
        } else {
            seq![cur]
        }
    } else {
        seq![cur].add(arc_children(v, cur + 1, skip))
    }
}

/// Where a node can be made for a file whose data is `b` from position `pos` on, inside
/// an archive of `bound` bytes: its magic can be read, and a nested archive there is
/// smaller than the one it is in and can be read itself.
pub open spec fn leaf_readable(bound: int, b: Seq<u8>, pos: int) -> bool
    decreases bound, 0int, 0int, 0int,
{
    can_read(b, pos, 4) && (magic_at(b, pos) == ARC_MAGIC@ ==> b.len() < bound && arc_readable(b, pos))
}

/// Where the node for child `q` of directory node `c` can be made (see
/// [`arc_tree_readable`] and [`leaf_readable`]).
pub open spec fn child_readable(bound: int, v: Seq<(bool, int, Seq<u8>, int)>, q: int, c: int) -> bool
    decreases bound, 1int, v.len() - c, 0int,
{
    if 0 <= q < v.len() && v[q].0 {
        c < q ==> arc_tree_readable(bound, v, q)
    } else {
        0 <= q < v.len() ==> leaf_readable(bound, v[q].2, v[q].3)
    }
}

/// Where the tree of directory node `c` can be built: a node for each of its children.
pub open spec fn arc_tree_readable(bound: int, v: Seq<(bool, int, Seq<u8>, int)>, c: int) -> bool
    decreases bound, 1int, v.len() - c, 1int,
{
    0 <= c < v.len() ==> {
        let ps = arc_children(v, c + 1, v[c].1);
        forall|k: int| #![trigger ps[k]] 0 <= k < ps.len() ==> child_readable(bound, v, ps[k], c)
    }
}

/// What reading the tree of the archive whose header is at `p` sees of each of its
/// nodes (see [`node_view`]): the root directory, then the nodes stored after it.
pub open spec fn arc_views_at(s: Seq<u8>, p: int) -> Seq<(bool, int, Seq<u8>, int)> {
    let count = u32_be(s, p + 40);
    Seq::new(
        if count >= 1 { count as nat } else { 1 },
        |k: int|
            if k == 0 {
                (true, count as int, Seq::<u8>::empty(), 0int)
            } else if s[p + 32 + 12 * k] == 1 {
                (true, u32_be(s, p + 40 + 12 * k) as int, Seq::<u8>::empty(), 0int)
            } else {
                (false, 0int, tail_from(s, u32_be(s, p + 36 + 12 * k) as int), 0int)
            },
    )
}

/// The names of the nodes of the archive whose header is at `p`: `<null>` for the root
/// directory, then the name of each node stored after it, from the string pool.
pub open spec fn arc_names_at(s: Seq<u8>, p: int) -> Seq<Seq<char>> {
    let count = u32_be(s, p + 40);
    let pool = arc_pool(s, p);
    Seq::new(
        if count >= 1 { count as nat } else { 1 },
        |k: int|
            if k == 0 {
                "<null>"@
            } else {
                let off = u24_be(s, p + 32 + 12 * k + 1) as int;
                decode_utf8(pool.subrange(off, first_zero_from(pool, off)->0))
            },
    )
}

/// Where the header and the node records of the archive at `p` of `s` can be read:
/// all that is read before any node is added for it.
pub open spec fn arc_records_ok(s: Seq<u8>, p: int) -> bool {
    &&& arc_header_ok(s, p)
    &&& can_read(s, p + 32, 12)
    &&& s[p + 32] == 1
    &&& forall|k: int| 1 <= k < u32_be(s, p + 40) ==> #[trigger] arc_node_ok(s, p + 32 + 12 * k, arc_pool(s, p))
}

/// Where the archive whose header is at `p` of `s` can be read: its header, its root
/// directory, each of its nodes, and the tree of the root (see [`arc_tree_readable`]).
pub open spec fn arc_readable(s: Seq<u8>, p: int) -> bool
    decreases s.len(), 2int, 0int, 0int,
{
    &&& arc_header_ok(s, p)
    &&& can_read(s, p + 32, 12)
    &&& s[p + 32] == 1
    &&& forall|k: int| 1 <= k < u32_be(s, p + 40) ==> #[trigger] arc_node_ok(s, p + 32 + 12 * k, arc_pool(s, p))
    &&& arc_tree_readable(s.len() as int, arc_views_at(s, p), 0)
}

/// The names of the nodes `nodes`.
pub open spec fn node_names(nodes: Seq<Node>) -> Seq<Seq<char>> {
    Seq::new(nodes.len(), |k: int| nodes[k].name@)
}

/// Whether `e` is the error that making a node for a file whose data is `b` from
/// position `pos` on, inside an archive of `bound` bytes, gives where it cannot be made
/// (see [`leaf_readable`]): the end of the input within its magic, a corruption error
/// for a nested archive that is not smaller than the one it is in, else that of reading
/// the nested archive.
pub open spec fn leaf_error(bound: int, b: Seq<u8>, pos: int, e: EditorError) -> bool
    decreases bound, 0int, 0int, 0int,
{
    if !can_read(b, pos, 4) {
        e is IoError
    } else if magic_at(b, pos) == ARC_MAGIC@ {
        if b.len() < bound {
            arc_error(b, pos, e)
        } else {
            e is Corrupted
        }
    } else {
        false
    }
}

/// Whether `e` is the error that making the node for child `q` of directory node `c`
/// gives where it cannot be made: that of its own tree for a directory, that of its
/// file otherwise (see [`leaf_error`]).
pub open spec fn child_error(bound: int, v: Seq<(bool, int, Seq<u8>, int)>, q: int, c: int, e: EditorError) -> bool
    decreases bound, 1int, v.len() - c, 0int,
{
    if 0 <= q < v.len() && v[q].0 {
        c < q && arc_tree_error(bound, v, q, e)
    } else if 0 <= q < v.len() {
        leaf_error(bound, v[q].2, v[q].3, e)
    } else {
        false
    }
}

/// Whether `e` is the error that building the tree of directory node `c` gives where it
/// cannot be built: that of its first child whose node cannot be made.
pub open spec fn arc_tree_error(bound: int, v: Seq<(bool, int, Seq<u8>, int)>, c: int, e: EditorError) -> bool
    decreases bound, 1int, v.len() - c, 1int,
{
    0 <= c < v.len() && {
        let ps = arc_children(v, c + 1, v[c].1);
        exists|k: int|
            #![trigger ps[k]]
            0 <= k < ps.len() && (forall|j: int| 0 <= j < k ==> child_readable(bound, v, #[trigger] ps[j], c))
                && !child_readable(bound, v, ps[k], c) && child_error(bound, v, ps[k], c, e)
    }
}

/// Whether `e` is the error that reading the archive whose header is at `p` of `s` gives
/// where it cannot be read (see [`arc_readable`]): that of its header, that of its root
/// node (which must be a directory), that of its first node that cannot be read, else
/// that of building its tree.
pub open spec fn arc_error(s: Seq<u8>, p: int, e: EditorError) -> bool
    decreases s.len(), 2int, 0int, 0int,
{
    let count = u32_be(s, p + 40);
    if !arc_header_ok(s, p) {
        if can_read(s, p, 4) && magic_at(s, p) != ARC_MAGIC@ {
            magic_mismatch(s, p, ARC_MAGIC@, e)
        } else {
            e is IoError
        }
    } else if !can_read(s, p + 32, 1) {
        e is IoError
    } else if s[p + 32] != 1 {
        e is Corrupted
    } else if !can_read(s, p + 32, 12) {
        e is IoError
    } else if !(forall|k: int| 1 <= k < count ==> #[trigger] arc_node_ok(s, p + 32 + 12 * k, arc_pool(s, p))) {
        exists|k: int|
            1 <= k < count && (forall|j: int| 1 <= j < k ==> #[trigger] arc_node_ok(s, p + 32 + 12 * j, arc_pool(s, p)))
                && !#[trigger] arc_node_ok(s, p + 32 + 12 * k, arc_pool(s, p)) && arc_node_error(
                s,
                p + 32 + 12 * k,
                arc_pool(s, p),
                e,
            )
    } else {
        arc_tree_error(s.len() as int, arc_views_at(s, p), 0, e)
    }
}

/// Whether `id` is the node made for a file whose data is `s` from position `p` on,
/// inside an archive of `bound` bytes, by the magic at the start of the data: a nested
/// archive (smaller than the one it is in) is the root of its own tree; a BRRES file is
/// a directory that reads the data when it is first evaluated; any other file is a node
/// with its raw bytes.
pub open spec fn leaf_node_ok(map: &VirtualNodeMap, id: VirtualNodeId, s: Seq<u8>, p: int, bound: int) -> bool
    decreases bound, 0int, 0int,
{
    map.node(id) matches Some(m) && if can_read(s, p, 4) && magic_at(s, p) == ARC_MAGIC@ {
        &&& m.kind is ArcDirectory
        &&& s.len() < bound
        &&& arc_tree_ok(map, id, arc_views_at(s, p), arc_names_at(s, p), 0, s.len() as int)
    } else if can_read(s, p, 4) && magic_at(s, p) == BRRES_MAGIC@ {
        &&& m.kind == VirtualNodeKind::BrresDirectory
        &&& m.body matches Deferred::Deferred(pl) && (pl.payload matches Some(DeferredParse::Brres { reader })
            && reader.bytes() == s && reader.pos() == p)
    } else {
        &&& m.kind == VirtualNodeKind::Unknown
        &&& m.body matches Deferred::Evaluated(b) && b.children@.len() == 0 && (b.inspectable matches Some(
            NodeContents::Raw(raw),
        ) && raw.bytes.bytes() == s && raw.bytes.pos() == p)
    }
}

/// Whether `id` is the node made for node `q` of an archive of `bound` bytes, a child of
/// directory node `c`, where `v` is what reading the tree sees of each node (see
/// [`node_view`]) and `names` are their names: labelled with its name; a directory with
/// its own tree, a file by its data (see [`leaf_node_ok`]).
pub open spec fn arc_child_ok(
    map: &VirtualNodeMap,
    id: VirtualNodeId,
    v: Seq<(bool, int, Seq<u8>, int)>,
    names: Seq<Seq<char>>,
    q: int,
    c: int,
    bound: int,
) -> bool
    decreases bound, v.len() - c, 1int,
{
    map.node(id) matches Some(m) && m.label@ == names[q] && if v[q].0 {
        m.kind is ArcDirectory && (c < q < v.len() ==> arc_tree_ok(map, id, v, names, q, bound))
    } else {
        c < v.len() ==> leaf_node_ok(map, id, v[q].2, v[q].3, bound)
    }
}

/// Whether `id` is the node of directory node `c` of an archive of `bound` bytes (see
/// [`arc_child_ok`]): evaluated, with a child for each of its children (see
/// [`arc_children`]), in order.
pub open spec fn arc_tree_ok(
    map: &VirtualNodeMap,
    id: VirtualNodeId,
    v: Seq<(bool, int, Seq<u8>, int)>,
    names: Seq<Seq<char>>,
    c: int,
    bound: int,
) -> bool
    decreases bound, v.len() - c, 2int,
{
    &&& 0 <= c < v.len()
    &&& map.node(id) matches Some(n) && n.body matches Deferred::Evaluated(b) && {
        let ps = arc_children(v, c + 1, v[c].1);
        &&& b.children@.len() == ps.len()
        &&& forall|k: int|
            #![trigger b.children@[k]]
            0 <= k < ps.len() ==> arc_child_ok(map, b.children@[k], v, names, ps[k], c, bound)
    }
}

/// `b` holds every node that `a` holds, unchanged.
pub open spec fn keeps_nodes(a: &VirtualNodeMap, b: &VirtualNodeMap) -> bool {
    forall|x: VirtualNodeId| #[trigger] a.node(x) is Some ==> b.node(x) == a.node(x)
}

/// A map that extends another keeps its nodes.
proof fn lemma_extends_keeps(a: &VirtualNodeMap, b: &VirtualNodeMap)
    requires
        a.extends(b),
    ensures
        keeps_nodes(a, b),
{
    assert forall|x: VirtualNodeId| #[trigger] a.node(x) is Some implies b.node(x) == a.node(x) by {
        assert(b.slots()[x.value() - 1] == a.slots()[x.value() - 1]);
    }
}

/// The node of a file stays as it is in a map that keeps its nodes.
proof fn lemma_leaf_kept(a: &VirtualNodeMap, b: &VirtualNodeMap, id: VirtualNodeId, s: Seq<u8>, p: int, bound: int)
    requires
        keeps_nodes(a, b),
        leaf_node_ok(a, id, s, p, bound),
    ensures
        leaf_node_ok(b, id, s, p, bound),
    decreases bound, 0int, 0int,
{
    assert(b.node(id) == a.node(id));
    if can_read(s, p, 4) && magic_at(s, p) == ARC_MAGIC@ {
        lemma_tree_kept(a, b, id, arc_views_at(s, p), arc_names_at(s, p), 0, s.len() as int);
    }
}

/// The tree of a directory stays as it is in a map that keeps its nodes.
proof fn lemma_tree_kept(
    a: &VirtualNodeMap,
    b: &VirtualNodeMap,
    id: VirtualNodeId,
    v: Seq<(bool, int, Seq<u8>, int)>,
    names: Seq<Seq<char>>,
    c: int,
    bound: int,
)
    requires
        keeps_nodes(a, b),
        arc_tree_ok(a, id, v, names, c, bound),
    ensures
        arc_tree_ok(b, id, v, names, c, bound),
    decreases bound, v.len() - c, 2int,
{
    let n = a.node(id)->0;
    assert(b.node(id) == a.node(id));
    let bb = n.body->Evaluated_0;
    let ps = arc_children(v, c + 1, v[c].1);
    assert forall|k: int| #![trigger bb.children@[k]] 0 <= k < ps.len() implies arc_child_ok(
        b,
        bb.children@[k],
        v,
        names,
        ps[k],
        c,
        bound,
    ) by {
        lemma_child_kept(a, b, bb.children@[k], v, names, ps[k], c, bound);
    }
}

/// A child of a directory stays as it is in a map that keeps its nodes.
proof fn lemma_child_kept(
    a: &VirtualNodeMap,
    b: &VirtualNodeMap,
    id: VirtualNodeId,
    v: Seq<(bool, int, Seq<u8>, int)>,
    names: Seq<Seq<char>>,
    q: int,
    c: int,
    bound: int,
)
    requires
        keeps_nodes(a, b),
        arc_child_ok(a, id, v, names, q, c, bound),
    ensures
        arc_child_ok(b, id, v, names, q, c, bound),
    decreases bound, v.len() - c, 1int,
{
    assert(b.node(id) == a.node(id));
    if v[q].0 {
        if c < q < v.len() {
            lemma_tree_kept(a, b, id, v, names, q, bound);
        }
    } else if c < v.len() {
        lemma_leaf_kept(a, b, id, v[q].2, v[q].3, bound);
    }
}

/// Reads the file at the start of `reader` into a node: an ARC or BRRES file gets its
/// own tree; any other file becomes a raw node.
fn parse_leaf_node(
    reader: &mut RefCursor,
    parent_id: VirtualNodeId,
    node_map: &mut VirtualNodeMap,
    name: String,
    arc_len: usize,
) -> (r: EditorResult<VirtualNodeId>)
    ensures
        old(node_map).extends(&*final(node_map)),
        r matches Ok(id) ==> attached(&*final(node_map), id, Some(parent_id)) && id.value() > old(
            node_map,
        ).slots().len() && final(node_map).node(id)->0.label@ == name@ && leaf_node_ok(
            &*final(node_map),
            id,
            old(reader).bytes(),
            old(reader).pos(),
            arc_len as int,
        ),
        r is Ok <==> leaf_readable(arc_len as int, old(reader).bytes(), old(reader).pos()),
        r matches Err(e) ==> leaf_error(arc_len as int, old(reader).bytes(), old(reader).pos(), e),
    decreases arc_len, 0nat, 0nat,
{
    let magic = reader.read_u8_array4()?;
    reader.set_position(reader.position() - 4);
    if magic_eq(magic, ARC_MAGIC) {
        if reader.len() >= arc_len {
            return Err(corrupted("archive contains itself".to_owned(), None));
        }
        deserialize_virtual(reader, Some(parent_id), node_map, name)
    } else if magic_eq(magic, BRRES_MAGIC) {
        brres::deserialize_virtual(reader, Some(parent_id), node_map, name)
    } else {
        let id = node_map.next_id();
        let node = VirtualNode {
            label: name,
            id,
            kind: VirtualNodeKind::Unknown,
            parent: Some(parent_id),
            body: Deferred::evaluated(
                VirtualNodeBody {
                    children: Vec::new(),
                    inspectable: Some(NodeContents::Raw(Raw { bytes: reader.clone() })),
                },
            ),
        };
        node_map.insert(id, node);
        Ok(id)
    }
}

/// Builds the directory whose node is `node_list[cursor]`: its children are the nodes
/// that follow it, up to its `skip_node` index (see [`arc_children`]). Returns its ID
/// and the index of the first node after it (see [`arc_dir_end`]).
fn parse_directory_tree(
    node_list: &Vec<Node>,
    parent_id: Option<VirtualNodeId>,
    node_map: &mut VirtualNodeMap,
    label: String,
    cursor: usize,
    arc_len: usize,
) -> (r: EditorResult<(VirtualNodeId, usize)>)
    requires
        cursor < node_list@.len(),
        forall|k: int|
            0 <= k < node_list@.len() ==> ((#[trigger] node_list@[k]).data matches NodeContent::File {
                data,
            } ==> data.bytes().len() <= arc_len),
    ensures
        old(node_map).extends(&*final(node_map)),
        r matches Ok((id, next)) ==> {
            &&& cursor < next <= node_list@.len()
            &&& next == arc_dir_end(node_views(node_list@), cursor as int)
            &&& id.value() > old(node_map).slots().len()
            &&& node_is(
                &*final(node_map),
                id,
                label@,
                VirtualNodeKind::ArcDirectory {
                    empty: final(node_map).node(id)->0.body->Evaluated_0.children@.len() == 0,
                },
                parent_id,
            )
            &&& children_attached(&*final(node_map), id, old(node_map).slots().len() as int)
            &&& arc_tree_ok(
                &*final(node_map),
                id,
                node_views(node_list@),
                node_names(node_list@),
                cursor as int,
                arc_len as int,
            )
        },
        !(node_list@[cursor as int].data is Directory) ==> (r matches Err(e) && e is Corrupted),
        node_list@[cursor as int].data is Directory ==> (r is Ok <==> arc_tree_readable(
            arc_len as int,
            node_views(node_list@),
            cursor as int,
        )),
        node_list@[cursor as int].data is Directory ==> (r matches Err(e) ==> arc_tree_error(
            arc_len as int,
            node_views(node_list@),
            cursor as int,
            e,
        )),
    decreases arc_len, 0nat, node_list@.len() - cursor,
{
    let skip_node = match &node_list[cursor].data {
        NodeContent::Directory { skip_node, .. } => *skip_node,
        NodeContent::File { .. } => {
            return Err(corrupted("expected directory at root, found file instead".to_owned(), None));
        },
    };
    let ghost nodes = node_list@;
    let ghost v = node_views(nodes);
    let ghost names = node_names(nodes);
    let ghost skip = skip_node as int;
    let len = node_list.len();
    let mut cur = cursor + 1;
    let ghost base = old(node_map).slots().len();
    let id = node_map.next_id();
    let mut children: Vec<VirtualNodeId> = Vec::new();
    let ghost mut ps: Seq<int> = Seq::empty();
    while cur < skip_node as usize && cur < len
        invariant
            old(node_map).extends(&*node_map),
            node_map.slots().len() >= id.value(),
            id.value() == base + 1,
            node_map.node(id) is None,
            base == old(node_map).slots().len(),
            len == node_list@.len(),
            nodes == node_list@,
            v == node_views(nodes),
            names == node_names(nodes),
            skip == skip_node as int,
            skip == skip_of(nodes[cursor as int]),
            cursor < cur <= len,
            node_list@[cursor as int].data is Directory,
            forall|k: int|
                0 <= k < node_list@.len() ==> ((#[trigger] node_list@[k]).data matches NodeContent::File {
                    data,
                } ==> data.bytes().len() <= arc_len),
            forall|k: int|
                0 <= k < children@.len() ==> attached(&*node_map, #[trigger] children@[k], Some(id))
                    && children@[k].value() > id.value(),
            arc_children(v, cursor + 1, skip) == ps.add(arc_children(v, cur as int, skip)),
            arc_scan(v, cursor + 1, skip) == arc_scan(v, cur as int, skip),
            children@.len() == ps.len(),
            forall|k: int| 0 <= k < ps.len() ==> cursor < #[trigger] ps[k] < cur,
            forall|k: int| 0 <= k < ps.len() ==> #[trigger] child_readable(arc_len as int, v, ps[k], cursor as int),
            forall|k: int|
                #![trigger children@[k]]
                0 <= k < ps.len() ==> arc_child_ok(&*node_map, children@[k], v, names, ps[k], cursor as int, arc_len as int),
        decreases len - cur,
    {
        let ghost before = *node_map;
        let ghost at = cur as int;
        let curr_node = &node_list[cur];
        let name = curr_node.name.clone();
        proof {
            assert(arc_children(v, at, skip)[0] == at);
            assert(arc_children(v, cursor + 1, skip)[ps.len() as int] == at);
        }
        let child = match &curr_node.data {
            NodeContent::Directory { .. } => {
                let (child, next) = match parse_directory_tree(node_list, Some(id), node_map, name, cur, arc_len) {
                    Ok(x) => x,
                    Err(e) => {
                        assert(!child_readable(arc_len as int, v, at, cursor as int));
                        assert(!arc_tree_readable(arc_len as int, v, cursor as int)) by {
                            let ps_full = arc_children(v, cursor + 1, v[cursor as int].1);
                            assert(ps_full[ps.len() as int] == at);
                            assert(!child_readable(arc_len as int, v, ps_full[ps.len() as int], cursor as int));
                        }
                        return Err(e);
                    },
                };
                cur = next;
                child
            },
            NodeContent::File { data } => {
                let mut file = data.clone();
                let child = match parse_leaf_node(&mut file, id, node_map, name, arc_len) {
                    Ok(x) => x,
                    Err(e) => {
                        assert(!child_readable(arc_len as int, v, at, cursor as int));
                        assert(!arc_tree_readable(arc_len as int, v, cursor as int)) by {
                            let ps_full = arc_children(v, cursor + 1, v[cursor as int].1);
                            assert(ps_full[ps.len() as int] == at);
                            assert(!child_readable(arc_len as int, v, ps_full[ps.len() as int], cursor as int));
                        }
                        return Err(e);
                    },
                };
                cur = cur + 1;
                child
            },
        };
        assert(child_readable(arc_len as int, v, at, cursor as int));
        proof {
            lemma_extends_keeps(&before, &*node_map);
            assert forall|k: int| 0 <= k < children@.len() implies attached(
                &*node_map,
                #[trigger] children@[k],
                Some(id),
            ) && children@[k].value() > id.value() by {
                let c = children@[k];
                assert(before.node(c) is Some);
                assert(before.slots()[c.value() - 1] is Some);
            }
            assert forall|k: int|
                #![trigger children@[k]]
                0 <= k < ps.len() implies arc_child_ok(&*node_map, children@[k], v, names, ps[k], cursor as int, arc_len as int) by {
                lemma_child_kept(&before, &*node_map, children@[k], v, names, ps[k], cursor as int, arc_len as int);
            }
            assert(node_map.slots()[id.value() - 1] == before.slots()[id.value() - 1] || before.slots()[id.value() - 1] is None);
            assert(arc_children(v, at, skip) == seq![at].add(arc_children(v, cur as int, skip)));
            assert(arc_scan(v, at, skip) == arc_scan(v, cur as int, skip));
            assert(ps.push(at).add(arc_children(v, cur as int, skip)) == ps.add(seq![at].add(arc_children(v, cur as int, skip))));
            assert(arc_child_ok(&*node_map, child, v, names, at, cursor as int, arc_len as int));
            ps = ps.push(at);
        }
        children.push(child);
        proof {
            assert forall|k: int|
                #![trigger children@[k]]
                0 <= k < ps.len() implies arc_child_ok(&*node_map, children@[k], v, names, ps[k], cursor as int, arc_len as int) by {
                if k < ps.len() - 1 {
                    assert(children@[k] == children@.drop_last()[k]);
                }
            }
        }
    }
    proof {
        assert(ps.add(Seq::<int>::empty()) == ps);
        assert(arc_children(v, cursor + 1, v[cursor as int].1) == ps);
        assert forall|k: int| 0 <= k < ps.len() implies child_readable(arc_len as int, v, ps[k], cursor as int) by {
            assert(child_readable(arc_len as int, v, ps[k], cursor as int));
        }
        assert(arc_tree_readable(arc_len as int, v, cursor as int));
    }
    let ghost before_insert = *node_map;
    let empty = children.len() == 0;
    let node = VirtualNode {
        label,
        id,
        parent: parent_id,
        kind: VirtualNodeKind::ArcDirectory { empty },
        body: Deferred::evaluated(VirtualNodeBody { children, inspectable: None }),
    };
    node_map.insert(id, node);
    proof {
        assert(keeps_nodes(&before_insert, &*node_map)) by {
            assert forall|x: VirtualNodeId| #[trigger] before_insert.node(x) is Some implies node_map.node(x)
                == before_insert.node(x) by {
                assert(x.value() != id.value());
            }
        }
        let b = node_map.node(id)->0.body->Evaluated_0;
        assert forall|k: int|
            #![trigger b.children@[k]]
            0 <= k < ps.len() implies arc_child_ok(&*node_map, b.children@[k], v, names, ps[k], cursor as int, arc_len as int) by {
            lemma_child_kept(&before_insert, &*node_map, b.children@[k], v, names, ps[k], cursor as int, arc_len as int);
        }
        assert(arc_tree_ok(&*node_map, id, v, names, cursor as int, arc_len as int));
    }
    Ok((id, cur))
}

/// The string pool of the archive whose header is at `p`: the bytes after its nodes.
pub open spec fn arc_pool(s: Seq<u8>, p: int) -> Seq<u8> {
    tail_from(s, (i32_be(s, p + 4) as i64 + 12 * u32_be(s, p + 40) as i64) as u64 as int)
}

/// Reads the ARC file at the position of `reader` and adds its tree of nodes to
/// `node_map`: a node for every directory, and for every file a node made by
/// reading the file (nested ARC and BRRES files get their own trees). Returns the
/// ID of the root directory, which gets the label `name` and the parent `parent_id`.
pub fn deserialize_virtual(
    reader: &mut RefCursor,
    parent_id: Option<VirtualNodeId>,
    node_map: &mut VirtualNodeMap,
    name: String,
) -> (r: EditorResult<VirtualNodeId>)
    ensures
        old(node_map).extends(&*final(node_map)),
        r matches Ok(id) ==> {
            &&& id.value() > old(node_map).slots().len()
            &&& node_is(
                &*final(node_map),
                id,
                name@,
                VirtualNodeKind::ArcDirectory {
                    empty: final(node_map).node(id)->0.body->Evaluated_0.children@.len() == 0,
                },
                parent_id,
            )
            &&& children_attached(&*final(node_map), id, old(node_map).slots().len() as int)
            &&& arc_tree_ok(
                &*final(node_map),
                id,
                arc_views_at(old(reader).bytes(), old(reader).pos()),
                arc_names_at(old(reader).bytes(), old(reader).pos()),
                0,
                old(reader).bytes().len() as int,
            )
        },
        r is Ok ==> arc_header_ok(old(reader).bytes(), old(reader).pos()),
        !arc_header_ok(old(reader).bytes(), old(reader).pos()) ==> r is Err,
        r is Ok <==> arc_readable(old(reader).bytes(), old(reader).pos()),
        r matches Err(e) ==> arc_error(old(reader).bytes(), old(reader).pos(), e),
        !arc_records_ok(old(reader).bytes(), old(reader).pos()) ==> *final(node_map) == *old(node_map),
    decreases old(reader).bytes().len(), 1nat, 0nat,
{
    let ghost s = reader.bytes();
    let ghost p = reader.pos();
    let header = Header::deserialize(reader)?;
    let ty = NodeType::deserialize(reader)?;
    match ty {
        NodeType::Directory => {},
        NodeType::File => {
            return Err(corrupted("expected directory at root, found file".to_owned(), None));
        },
    }
    let _offset = reader.read_u24()?;
    let data1 = reader.read_u32()?;
    let node_count = reader.read_u32()?;
    let start: i64 = header.node_offset as i64 + 12 * node_count as i64;
    let mut string_pool = reader.clone();
    string_pool.set_position(start as u64);
    string_pool.set_tail();
    let ghost pool = string_pool.bytes();
    assert(pool == arc_pool(s, p));
    let arc_len = reader.len();
    let mut nodes: Vec<Node> = Vec::new();
    nodes.push(
        Node {
            name: "<null>".to_owned(),
            data: NodeContent::Directory { parent: data1, skip_node: node_count },
        },
    );
    let mut i: u32 = 1;
    while i < node_count
        invariant
            arc_len == reader.bytes().len(),
            reader.bytes() == s,
            s == old(reader).bytes(),
            p == old(reader).pos(),
            string_pool.bytes() == pool,
            pool == arc_pool(s, p),
            node_count == u32_be(s, p + 40),
            can_read(s, p, 44),
            1 <= i,
            i < node_count ==> reader.pos() == p + 32 + 12 * i,
            i <= node_count || i == 1,
            nodes@.len() == i,
            nodes@[0].data == (NodeContent::Directory { parent: u32_be(s, p + 36), skip_node: node_count }),
            nodes@[0].name@ == "<null>"@,
            forall|k: int| 1 <= k < nodes@.len() ==> arc_node_is(s, p + 32 + 12 * k, pool, #[trigger] nodes@[k]),
            forall|k: int| 1 <= k < nodes@.len() ==> #[trigger] arc_node_ok(s, p + 32 + 12 * k, pool),
            arc_header_ok(s, p),
            can_read(s, p + 32, 12),
            s[p + 32] == 1,
            forall|k: int|
                0 <= k < nodes@.len() ==> ((#[trigger] nodes@[k]).data matches NodeContent::File {
                    data,
                } ==> data.bytes().len() <= arc_len),
        decreases node_count - i,
    {
        let node = match Node::deserialize(reader, &mut string_pool) {
            Ok(n) => n,
            Err(e) => {
                assert(!arc_readable(s, p)) by {
                    assert(!arc_node_ok(s, p + 32 + 12 * i, arc_pool(s, p)));
                }
                return Err(e);
            },
        };
        nodes.push(node);
        i = i + 1;
    }
    proof {
        assert(node_views(nodes@) =~= arc_views_at(s, p)) by {
            assert forall|k: int| 0 <= k < nodes@.len() implies node_views(nodes@)[k] == arc_views_at(s, p)[k] by {
                if k >= 1 {
                    assert(arc_node_is(s, p + 32 + 12 * k, pool, nodes@[k]));
                }
            }
        }
        assert(node_names(nodes@) =~= arc_names_at(s, p)) by {
            assert forall|k: int| 0 <= k < nodes@.len() implies node_names(nodes@)[k] == arc_names_at(s, p)[k] by {
                if k >= 1 {
                    assert(arc_node_is(s, p + 32 + 12 * k, pool, nodes@[k]));
                }
            }
        }
        assert(arc_len == s.len());
    }
    assert(arc_records_ok(s, p)) by {
        assert forall|k: int| 1 <= k < u32_be(s, p + 40) implies #[trigger] arc_node_ok(s, p + 32 + 12 * k, arc_pool(s, p)) by {
            assert(arc_node_ok(s, p + 32 + 12 * k, pool));
        }
    }
    let (id, _next) = match parse_directory_tree(&nodes, parent_id, node_map, name, 0, arc_len) {
        Ok(x) => x,
        Err(e) => {
            assert(!arc_tree_readable(arc_len as int, arc_views_at(s, p), 0));
            return Err(e);
        },
    };
    assert(arc_tree_ok(&*node_map, id, node_views(nodes@), node_names(nodes@), 0, arc_len as int));
    assert(arc_tree_readable(arc_len as int, arc_views_at(s, p), 0));
    assert forall|k: int| 1 <= k < u32_be(s, p + 40) implies #[trigger] arc_node_ok(s, p + 32 + 12 * k, arc_pool(s, p)) by {
        assert(arc_node_ok(s, p + 32 + 12 * k, pool));
    }
    assert(arc_readable(s, p));
    Ok(id)
}

} // verus!
