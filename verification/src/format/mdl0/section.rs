//! The sections of an MDL0 model that hold one record per entry of an index group.
use vstd::prelude::*;

use crate::error::{EditorError, EditorResult};
use crate::format::brres::{entries_at, entry_name, entry_name_error, entry_name_ok, index_group_size, IndexGroup};
use crate::format::encoding::Deserialize;
use crate::format::mdl0::bytecode::{bytecode_error, bytecode_is, bytecode_ok, Bytecode};
use crate::format::mdl0::colors::{colors_error, colors_is, colors_ok, Colors};
use crate::format::mdl0::materials::{material_error, material_is, material_ok, MaterialBuf};
use crate::format::mdl0::normals::{normal_buf_error, normal_buf_is, normal_buf_ok, NormalBuf};
use crate::format::mdl0::polygons::{polygon_error, polygon_is, polygon_readable, Polygon};
use crate::format::mdl0::tevs::{tev_error, tev_is, tev_ok, Tev};
use crate::format::mdl0::tex_links::{tex_links_is, tex_links_ok, TextureLinks};
use crate::format::mdl0::textures::Texture;
use crate::format::mdl0::uvs::{uvs_error, uvs_is, uvs_ok, Uvs};
use crate::format::mdl0::vertices::{vertices_error, vertices_is, vertices_ok, Vertices};
use crate::node::defer::Deferred;
use crate::node::node::{NodeContents, VirtualNode, VirtualNodeBody, VirtualNodeKind};
use crate::node::refs::{VirtualNodeId, VirtualNodeMap};
use crate::shared::util::{can_read, u32_be, RefCursor};

verus! {

/// The record type of the entries of a section.
#[derive(Debug, Copy, Clone, PartialEq, Eq, Structural)]
pub enum EntryKind {
    Bytecode,
    Vertices,
    Normals,
    Colors,
    Uvs,
    Materials,
    Tevs,
    Polygons,
    TextureLinks,
    Textures,
}

/// The kind of the nodes made for entries of kind `k`.
pub open spec fn node_kind_of(k: EntryKind) -> VirtualNodeKind {
    match k {
        EntryKind::Bytecode => VirtualNodeKind::Bytecode,
        EntryKind::Vertices => VirtualNodeKind::Vertices,
        EntryKind::Normals => VirtualNodeKind::Normals,
        EntryKind::Colors => VirtualNodeKind::Colors,
        EntryKind::Uvs => VirtualNodeKind::Uvs,
        EntryKind::Materials => VirtualNodeKind::Materials,
        EntryKind::Tevs => VirtualNodeKind::Tevs,
        EntryKind::Polygons => VirtualNodeKind::Shape,
        EntryKind::TextureLinks => VirtualNodeKind::TextureLinks,
        EntryKind::Textures => VirtualNodeKind::Tevs,
    }
}

/// The node kind of each kind of record: the kind of the same name, polygons as shapes,
/// and texture records under the kind of TEVs.
pub proof fn lemma_node_kinds()
    ensures
        node_kind_of(EntryKind::Bytecode) == VirtualNodeKind::Bytecode,
        node_kind_of(EntryKind::Vertices) == VirtualNodeKind::Vertices,
        node_kind_of(EntryKind::Normals) == VirtualNodeKind::Normals,
        node_kind_of(EntryKind::Colors) == VirtualNodeKind::Colors,
        node_kind_of(EntryKind::Uvs) == VirtualNodeKind::Uvs,
        node_kind_of(EntryKind::Materials) == VirtualNodeKind::Materials,
        node_kind_of(EntryKind::Tevs) == VirtualNodeKind::Tevs,
        node_kind_of(EntryKind::Polygons) == VirtualNodeKind::Shape,
        node_kind_of(EntryKind::TextureLinks) == VirtualNodeKind::TextureLinks,
        node_kind_of(EntryKind::Textures) == VirtualNodeKind::Tevs,
{
}

/// Whether `c` is the record of kind `k` stored at `q` of `s` (offsets in it counting
/// from `hs`, the start of the MDL0 subfile).
pub open spec fn entry_is(k: EntryKind, s: Seq<u8>, q: int, hs: u32, c: NodeContents) -> bool {
    match k {
        EntryKind::Bytecode => c matches NodeContents::Bytecode(b) && bytecode_ok(s, q) && bytecode_is(s, q, b),
        EntryKind::Vertices => c matches NodeContents::Vertices(v) && vertices_ok(s, q, hs) && vertices_is(s, q, hs, v),
        EntryKind::Normals => c matches NodeContents::Normals(n) && normal_buf_ok(s, q, hs) && normal_buf_is(s, q, hs, n),
        EntryKind::Colors => c matches NodeContents::Colors(x) && colors_ok(s, q) && colors_is(s, q, x),
        EntryKind::Uvs => c matches NodeContents::Uvs(u) && uvs_ok(s, q, hs) && uvs_is(s, q, hs, u),
        EntryKind::Materials => c matches NodeContents::Materials(m) && material_ok(s, q) && material_is(s, q, m),
        EntryKind::Tevs => c matches NodeContents::Tev(t) && tev_ok(s, q) && tev_is(s, q, t),
        EntryKind::Polygons => c matches NodeContents::Polygon(x) && polygon_is(s, q, x),
        EntryKind::TextureLinks => c matches NodeContents::TextureLinks(t) && tex_links_ok(s, q) && tex_links_is(s, q, t),
        EntryKind::Textures => false,
    }
}

/// Where a record of kind `k` can be read at `q` of `s` (offsets in it counting from
/// `hs`); texture records are never read.
pub open spec fn entry_ok(k: EntryKind, s: Seq<u8>, q: int, hs: u32) -> bool {
    match k {
        EntryKind::Bytecode => bytecode_ok(s, q),
        EntryKind::Vertices => vertices_ok(s, q, hs),
        EntryKind::Normals => normal_buf_ok(s, q, hs),
        EntryKind::Colors => colors_ok(s, q),
        EntryKind::Uvs => uvs_ok(s, q, hs),
        EntryKind::Materials => material_ok(s, q),
        EntryKind::Tevs => tev_ok(s, q),
        EntryKind::Polygons => polygon_readable(s, q),
        EntryKind::TextureLinks => tex_links_ok(s, q),
        EntryKind::Textures => false,
    }
}

/// Whether `e` is the error that reading a record of kind `k` at `q` of `s` gives where
/// it cannot be read (texture records are not supported).
pub open spec fn entry_error(k: EntryKind, s: Seq<u8>, q: int, hs: u32, e: EditorError) -> bool {
    match k {
        EntryKind::Bytecode => bytecode_error(s, q, e),
        EntryKind::Vertices => vertices_error(s, q, e),
        EntryKind::Normals => normal_buf_error(s, q, e),
        EntryKind::Colors => colors_error(s, q, e),
        EntryKind::Uvs => uvs_error(s, q, e),
        EntryKind::Materials => material_error(s, q, e),
        EntryKind::Tevs => tev_error(s, q, e),
        EntryKind::Polygons => polygon_error(s, q, e),
        EntryKind::TextureLinks => e is IoError,
        EntryKind::Textures => e is Unsupported,
    }
}

/// Whether `e` is the error that reading entry `k` (see [`section_entry_ok`]) gives
/// where it cannot be read: that of its name, a corruption error for a data position
/// past the largest one, or that of its record.
pub open spec fn section_entry_error(s: Seq<u8>, p: int, hs: u32, which: EntryKind, k: int, e: EditorError) -> bool {
    let entry = entries_at(s, p + 8, (u32_be(s, p + 4) + 1) as nat)[k + 1];
    if !entry_name_ok(s, p as u32, entry) {
        entry_name_error(s, p as u32, entry, e)
    } else if !((p as u32) + entry.data_pointer <= u32::MAX) {
        e is Corrupted
    } else {
        entry_error(which, s, (p as u32) + entry.data_pointer, hs, e)
    }
}

/// Whether `e` is the error that reading a section of records of kind `which` at `p` of
/// `s` gives where it cannot be read: the end of the input within its index group, else
/// that of its first entry that cannot be read.
pub open spec fn section_error(s: Seq<u8>, p: int, hs: u32, which: EntryKind, e: EditorError) -> bool {
    if !can_read(s, p, index_group_size(s, p)) {
        e is IoError
    } else {
        exists|k: int|
            0 <= k < u32_be(s, p + 4) && (forall|j: int| 0 <= j < k ==> #[trigger] section_entry_ok(s, p, hs, which, j))
                && !#[trigger] section_entry_ok(s, p, hs, which, k) && section_entry_error(s, p, hs, which, k, e)
    }
}

/// Where entry `k` (counting from 0, after the first entry) of the index group at `p`
/// can be read: its name, and a record of kind `which` at its data.
pub open spec fn section_entry_ok(s: Seq<u8>, p: int, hs: u32, which: EntryKind, k: int) -> bool {
    let entry = entries_at(s, p + 8, (u32_be(s, p + 4) + 1) as nat)[k + 1];
    &&& entry_name_ok(s, p as u32, entry)
    &&& (p as u32) + entry.data_pointer <= u32::MAX
    &&& entry_ok(which, s, (p as u32) + entry.data_pointer, hs)
}

/// Reads the record of kind `k` at the position of `reader`.
fn read_entry(reader: &mut RefCursor, header_start: u32, k: EntryKind) -> (r: EditorResult<NodeContents>)
    ensures
        final(reader).bytes() == old(reader).bytes(),
        r matches Ok(c) ==> entry_ok(k, old(reader).bytes(), old(reader).pos(), header_start) && entry_is(
            k,
            old(reader).bytes(),
            old(reader).pos(),
            header_start,
            c,
        ),
        r is Err ==> !entry_ok(k, old(reader).bytes(), old(reader).pos(), header_start),
        r matches Err(e) ==> entry_error(k, old(reader).bytes(), old(reader).pos(), header_start, e),
{
    match k {
        EntryKind::Bytecode => Ok(NodeContents::Bytecode(Bytecode::deserialize(reader)?)),
        EntryKind::Vertices => Ok(NodeContents::Vertices(Vertices::deserialize(reader, header_start)?)),
        EntryKind::Normals => Ok(NodeContents::Normals(NormalBuf::deserialize(reader, header_start)?)),
        EntryKind::Colors => Ok(NodeContents::Colors(Colors::deserialize(reader)?)),
        EntryKind::Uvs => Ok(NodeContents::Uvs(Uvs::deserialize(reader, header_start)?)),
        EntryKind::Materials => Ok(NodeContents::Materials(MaterialBuf::deserialize(reader)?)),
        EntryKind::Tevs => Ok(NodeContents::Tev(Tev::deserialize(reader)?)),
        EntryKind::Polygons => Ok(NodeContents::Polygon(Polygon::deserialize(reader)?)),
        EntryKind::TextureLinks => Ok(NodeContents::TextureLinks(TextureLinks::deserialize(reader)?)),
        EntryKind::Textures => Ok(NodeContents::Texture(Texture::deserialize(reader)?)),
    }
}

/// Whether slot `base + k` of `map` holds the node of entry `k` (of the index group at
/// `p`): labelled with the entry's name, of the kind of `which`, attached to `parent`,
/// with the record at the entry's data as its contents and no children.
pub open spec fn entry_node_ok(
    map: &VirtualNodeMap,
    base: int,
    s: Seq<u8>,
    p: int,
    hs: u32,
    parent: VirtualNodeId,
    which: EntryKind,
    k: int,
) -> bool {
    let entry = entries_at(s, p + 8, (u32_be(s, p + 4) + 1) as nat)[k + 1];
    &&& 0 <= base + k < map.slots().len()
    &&& map.slots()[base + k] matches Some(n) && {
        &&& n.id.value() == base + 1 + k
        &&& n.label@ == entry_name(s, p as u32, entry)
        &&& n.kind == node_kind_of(which)
        &&& n.parent == Some(parent)
        &&& n.body matches Deferred::Evaluated(b) && b.children@.len() == 0 && (b.inspectable matches Some(c)
            && entry_is(which, s, (p as u32) + entry.data_pointer, hs, c))
    }
}

/// What reading a section of records of kind `which` at `p` of `s` gives, from map
/// `before` to map `after`: the map only grows; on success the body has no contents of
/// its own and, as children, one fresh node per entry (see [`entry_node_ok`]); a
/// section whose index group cannot be read fails.
pub open spec fn entries_result(
    s: Seq<u8>,
    p: int,
    hs: u32,
    parent: VirtualNodeId,
    which: EntryKind,
    before: &VirtualNodeMap,
    after: &VirtualNodeMap,
    r: EditorResult<VirtualNodeBody>,
) -> bool {
    let base = before.slots().len() as int;
    let n = u32_be(s, p + 4);
    &&& before.extends(after)
    &&& r is Err ==> !can_read(s, p, index_group_size(s, p)) || exists|k: int|
        0 <= k < n && !#[trigger] section_entry_ok(s, p, hs, which, k)
    &&& r matches Err(e) ==> section_error(s, p, hs, which, e)
    &&& r matches Ok(body) ==> {
        &&& can_read(s, p, index_group_size(s, p))
        &&& body.inspectable is None
        &&& body.children@.len() == n
        &&& after.slots().len() == base + n
        &&& forall|k: int|
            0 <= k < n ==> #[trigger] entry_node_ok(after, base, s, p, hs, parent, which, k) && body.children@[k].value()
                == base + 1 + k && section_entry_ok(s, p, hs, which, k)
    }
}

/// Reads a section of records of kind `which` at the position of `reader`: its index
/// group, then for each entry after the first its name and the record at its data,
/// which becomes the contents of a new node attached to `parent_id`.
pub fn deserialize_entries(
    reader: &mut RefCursor,
    header_start: u32,
    parent_id: VirtualNodeId,
    node_map: &mut VirtualNodeMap,
    which: EntryKind,
) -> (r: EditorResult<VirtualNodeBody>)
    ensures
        final(reader).bytes() == old(reader).bytes(),
        entries_result(old(reader).bytes(), old(reader).pos(), header_start, parent_id, which, &*old(node_map), &*final(node_map), r),
{
    let ghost s = reader.bytes();
    let ghost p = reader.pos();
    let ghost base = node_map.slots().len() as int;
    let section_index = IndexGroup::deserialize(reader)?;
    let count = section_index.entries.len();
    let mut children: Vec<VirtualNodeId> = Vec::new();
    let mut k: usize = 1;
    while k < count
        invariant
            reader.bytes() == s,
            s == old(reader).bytes(),
            p == old(reader).pos(),
            base == old(node_map).slots().len(),
            old(node_map).extends(&*node_map),
            count == section_index.entries@.len(),
            count == u32_be(s, p + 4) + 1,
            section_index.group_start == p as u32,
            section_index.entries@ == entries_at(s, p + 8, count as nat),
            can_read(s, p, index_group_size(s, p)),
            1 <= k <= count,
            children@.len() == k - 1,
            node_map.slots().len() == base + k - 1,
            forall|j: int|
                0 <= j < k - 1 ==> #[trigger] entry_node_ok(&*node_map, base, s, p, header_start, parent_id, which, j)
                    && children@[j].value() == base + 1 + j && section_entry_ok(s, p, header_start, which, j),
        decreases count - k,
    {
        let ghost start_map = *node_map;
        let entry = &section_index.entries[k];
        let ghost j = k - 1;
        proof {
            assert(entries_at(s, p + 8, (u32_be(s, p + 4) + 1) as nat)[j + 1] == *entry);
            assert forall|i: int| 0 <= i < j implies #[trigger] section_entry_ok(s, p, header_start, which, i) by {
                assert(entry_node_ok(&*node_map, base, s, p, header_start, parent_id, which, i));
            }
        }
        let name = match section_index.get_entry_name(reader, entry) {
            Ok(v) => v,
            Err(e) => {
                assert(!section_entry_ok(s, p, header_start, which, j));
                assert(section_entry_error(s, p, header_start, which, j, e));
                return Err(e);
            },
        };
        let data_start = match section_index.checked_entry_data_start(entry) {
            Ok(v) => v,
            Err(e) => {
                assert(!section_entry_ok(s, p, header_start, which, j));
                assert(section_entry_error(s, p, header_start, which, j, e));
                return Err(e);
            },
        };
        reader.set_position(data_start as u64);
        let contents = match read_entry(reader, header_start, which) {
            Ok(c) => c,
            Err(e) => {
                assert(!section_entry_ok(s, p, header_start, which, j));
                assert(section_entry_error(s, p, header_start, which, j, e));
                return Err(e);
            },
        };
        assert(section_entry_ok(s, p, header_start, which, j));
        let id = node_map.next_id();
        let kind = match which {
            EntryKind::Bytecode => VirtualNodeKind::Bytecode,
            EntryKind::Vertices => VirtualNodeKind::Vertices,
            EntryKind::Normals => VirtualNodeKind::Normals,
            EntryKind::Colors => VirtualNodeKind::Colors,
            EntryKind::Uvs => VirtualNodeKind::Uvs,
            EntryKind::Materials => VirtualNodeKind::Materials,
            EntryKind::Tevs => VirtualNodeKind::Tevs,
            EntryKind::Polygons => VirtualNodeKind::Shape,
            EntryKind::TextureLinks => VirtualNodeKind::TextureLinks,
            EntryKind::Textures => VirtualNodeKind::Tevs,
        };
        let node = VirtualNode {
            label: name,
            id,
            kind,
            parent: Some(parent_id),
            body: Deferred::evaluated(VirtualNodeBody { children: Vec::new(), inspectable: Some(contents) }),
        };
        let ghost before = *node_map;
        node_map.insert(id, node);
        children.push(id);
        proof {
            assert forall|j: int| 0 <= j < k implies #[trigger] entry_node_ok(&*node_map, base, s, p, header_start, parent_id, which, j)
                && children@[j].value() == base + 1 + j && section_entry_ok(s, p, header_start, which, j) by {
                if j < k - 1 {
                    assert(entry_node_ok(&start_map, base, s, p, header_start, parent_id, which, j));
                    assert(before.slots()[base + j] == start_map.slots()[base + j]);
                    assert(node_map.slots()[base + j] == before.slots()[base + j]);
                } else {
                    assert(node_map.slots()[base + j] == node_map.node(id));
                    assert(section_index.entries@[k as int] == entries_at(s, p + 8, (u32_be(s, p + 4) + 1) as nat)[j + 1]);
                }
            }
        }
        k = k + 1;
    }
    Ok(VirtualNodeBody { children, inspectable: None })
}

} // verus!
