//! The root node of an opened file.
use vstd::prelude::*;

use crate::error::{unsupported, EditorResult};
use crate::format::arc::{self, ARC_MAGIC, arc_error, arc_names_at, arc_readable, arc_tree_ok, arc_views_at};
use crate::format::brres::{self, magic_at, node_is, BRRES_MAGIC, ROOT_MAGIC};
use crate::format::chr0::CHR0_MAGIC;
use crate::format::mdl0::MDL0_MAGIC;
use crate::format::pat0::PAT0_MAGIC;
use crate::format::encoding::magic_eq;
use crate::node::defer::{Deferred, DeferredParse};
use crate::node::node::VirtualNodeKind;
use crate::node::refs::{VirtualNodeId, VirtualNodeMap};
use crate::shared::util::{can_read, RefCursor};

verus! {

/// Magic of a file compressed with the Yaz0 scheme ("Yaz0"), as SZS files are.
pub const YAZ0_MAGIC: [u8; 4] = [0x59, 0x61, 0x7A, 0x30];

/// The magic of each format is its tag: the bytes 0x55 0xAA 0x38 0x2D of an ARC
/// archive, and the ASCII letters "Yaz0", "bres", "root", "MDL0", "CHR0" and "PAT0".
pub proof fn lemma_magics()
    ensures
        ARC_MAGIC@ == seq![0x55u8, 0xAAu8, 0x38u8, 0x2Du8],
        YAZ0_MAGIC@ == seq![0x59u8 /* Y */, 0x61u8 /* a */, 0x7Au8 /* z */, 0x30u8 /* 0 */],
        BRRES_MAGIC@ == seq![0x62u8 /* b */, 0x72u8 /* r */, 0x65u8 /* e */, 0x73u8 /* s */],
        ROOT_MAGIC@ == seq![0x72u8 /* r */, 0x6fu8 /* o */, 0x6fu8 /* o */, 0x74u8 /* t */],
        MDL0_MAGIC@ == seq![0x4du8 /* M */, 0x44u8 /* D */, 0x4cu8 /* L */, 0x30u8 /* 0 */],
        CHR0_MAGIC@ == seq![0x43u8 /* C */, 0x48u8 /* H */, 0x52u8 /* R */, 0x30u8 /* 0 */],
        PAT0_MAGIC@ == seq![0x50u8 /* P */, 0x41u8 /* A */, 0x54u8 /* T */, 0x30u8 /* 0 */],
{
    assert(ARC_MAGIC@ =~= seq![0x55u8, 0xAAu8, 0x38u8, 0x2Du8]);
    assert(YAZ0_MAGIC@ =~= seq![0x59u8, 0x61u8, 0x7Au8, 0x30u8]);
    assert(BRRES_MAGIC@ =~= seq![0x62u8, 0x72u8, 0x65u8, 0x73u8]);
    assert(ROOT_MAGIC@ =~= seq![0x72u8, 0x6fu8, 0x6fu8, 0x74u8]);
    assert(MDL0_MAGIC@ =~= seq![0x4du8, 0x44u8, 0x4cu8, 0x30u8]);
    assert(CHR0_MAGIC@ =~= seq![0x43u8, 0x48u8, 0x52u8, 0x30u8]);
    assert(PAT0_MAGIC@ =~= seq![0x50u8, 0x41u8, 0x54u8, 0x30u8]);
}

/// Whether the file at `p` of `s` starts with the magic `m`.
pub open spec fn starts_with(s: Seq<u8>, p: int, m: [u8; 4]) -> bool {
    can_read(s, p, 4) && magic_at(s, p) == m@
}

/// Adds the node of the file at the position of `cursor`, named `name`, to `node_map`
/// and returns its ID: a BRRES file becomes a directory read when it is first
/// evaluated; any other file is read as an ARC archive, with its tree of nodes. Files
/// compressed with Yaz0 cannot be decompressed here and are refused as unsupported.
pub fn deserialize_maybe_compressed(
    cursor: RefCursor,
    node_map: &mut VirtualNodeMap,
    name: String,
) -> (r: EditorResult<VirtualNodeId>)
    ensures
        old(node_map).extends(&*final(node_map)),
        ({
            let s = cursor.bytes();
            let p = cursor.pos();
            if starts_with(s, p, YAZ0_MAGIC) {
                r matches Err(e) && e is Unsupported && *final(node_map) == *old(node_map)
            } else if starts_with(s, p, BRRES_MAGIC) {
                r matches Ok(id) && node_is(&*final(node_map), id, name@, VirtualNodeKind::BrresDirectory, None)
                    && (final(node_map).node(id)->0.body matches Deferred::Deferred(pl) && pl.payload
                    == Some(DeferredParse::Brres { reader: cursor }))
            } else {
                &&& r is Ok <==> arc_readable(s, p)
                &&& r matches Err(e) ==> arc_error(s, p, e)
                &&& r matches Ok(id) ==> {
                    &&& final(node_map).node(id) matches Some(n) && n.label@ == name@ && n.kind is ArcDirectory
                        && n.parent is None
                    &&& arc_tree_ok(&*final(node_map), id, arc_views_at(s, p), arc_names_at(s, p), 0, s.len() as int)
                }
            }
        }),
{
    let mut reader = cursor.clone();
    let mut peek = cursor.clone();
    match peek.read_u8_array4() {
        Ok(magic) => {
            if magic_eq(magic, YAZ0_MAGIC) {
                return Err(unsupported("Yaz0-compressed file".to_owned(), Some(cursor.position())));
            }
            if magic_eq(magic, BRRES_MAGIC) {
                return brres::deserialize_virtual(&mut reader, None, node_map, name);
            }
        },
        Err(_) => {},
    }
    arc::deserialize_virtual(&mut reader, None, node_map, name)
}

} // verus!
