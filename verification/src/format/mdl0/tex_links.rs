//! Texture links of MDL0 models.
use vstd::prelude::*;

use crate::error::EditorResult;
use crate::format::encoding::Deserialize;
use crate::format::mdl0::section::{deserialize_entries, EntryKind};
use crate::node::node::VirtualNodeBody;
use crate::node::refs::{VirtualNodeId, VirtualNodeMap};
use crate::shared::util::{can_read, fixed_read, u32_be, RefCursor};

verus! {

/// A link between a texture and a material that uses it.
#[derive(Debug, Copy, Clone, PartialEq, Eq)]
pub struct TextureLink {
    pub offset1: u32,
    pub offset2: u32,
}

impl Deserialize for TextureLink {
    fn deserialize(reader: &mut RefCursor) -> (r: EditorResult<Self>)
        ensures
            final(reader).bytes() == old(reader).bytes(),
            fixed_read(
                r,
                old(reader).bytes(),
                old(reader).pos(),
                8,
                TextureLink {
                    offset1: u32_be(old(reader).bytes(), old(reader).pos()),
                    offset2: u32_be(old(reader).bytes(), old(reader).pos() + 4),
                },
                final(reader).pos(),
            ),
    {
        let offset1 = reader.read_u32()?;
        let offset2 = reader.read_u32()?;
        Ok(TextureLink { offset1, offset2 })
    }
}

/// The links of a texture.
pub struct TextureLinks {
    pub links: Vec<TextureLink>,
}

/// Where the texture links at `p` of `s` can be read: a count and that many links.
pub open spec fn tex_links_ok(s: Seq<u8>, p: int) -> bool {
    can_read(s, p, 4) && can_read(s, p + 4, 8 * u32_be(s, p))
}

/// Whether `t` holds the texture links stored at `p` of `s`.
pub open spec fn tex_links_is(s: Seq<u8>, p: int, t: TextureLinks) -> bool {
    &&& t.links@.len() == u32_be(s, p)
    &&& forall|k: int|
        0 <= k < u32_be(s, p) ==> #[trigger] t.links@[k] == (TextureLink {
            offset1: u32_be(s, p + 4 + 8 * k),
            offset2: u32_be(s, p + 8 + 8 * k),
        })
}

/// Where each field of the value lies: the bytes it is read from.
pub proof fn lemma_tex_links_layout(s: Seq<u8>, p: int, t: TextureLinks)
    requires
        tex_links_is(s, p, t),
    ensures
        (t.links@.len() == u32_be(s, p)),
        (forall|k: int| 0 <= k < u32_be(s, p) ==> #[trigger] t.links@[k] == (TextureLink { offset1: u32_be(s, p + 4 + 8 * k), offset2: u32_be(s, p + 8 + 8 * k), })),
{
}

impl Deserialize for TextureLinks {
    fn deserialize(reader: &mut RefCursor) -> (r: EditorResult<Self>)
        ensures
            final(reader).bytes() == old(reader).bytes(),
            ({
                let s = old(reader).bytes();
                let p = old(reader).pos();
                match r {
                    Ok(t) => tex_links_ok(s, p) && tex_links_is(s, p, t) && final(reader).pos() == p + 4 + 8 * u32_be(s, p),
                    Err(e) => !tex_links_ok(s, p) && e is IoError,
                }
            }),
    {
        let ghost s = reader.bytes();
        let ghost p = reader.pos();
        let link_count = reader.read_u32()?;
        let mut links: Vec<TextureLink> = Vec::new();
        let mut k: u32 = 0;
        while k < link_count
            invariant
                reader.bytes() == s,
                s == old(reader).bytes(),
                p == old(reader).pos(),
                can_read(s, p, 4),
                link_count == u32_be(s, p),
                k <= link_count,
                can_read(s, p + 4, 8 * k),
                reader.pos() == p + 4 + 8 * k,
                links@.len() == k,
                forall|j: int|
                    0 <= j < k ==> #[trigger] links@[j] == (TextureLink {
                        offset1: u32_be(s, p + 4 + 8 * j),
                        offset2: u32_be(s, p + 8 + 8 * j),
                    }),
            decreases link_count - k,
        {
            let l = TextureLink::deserialize(reader)?;
            links.push(l);
            k = k + 1;
        }
        Ok(TextureLinks { links })
    }
}

/// Reads the texture links section at the position of `reader`: a node for each entry
/// of its index group, attached to `parent_id`.
pub fn deserialize_virtual(reader: &mut RefCursor, parent_id: VirtualNodeId, node_map: &mut VirtualNodeMap) -> (r: EditorResult<VirtualNodeBody>)
    ensures
        final(reader).bytes() == old(reader).bytes(),
        crate::format::mdl0::section::entries_result(
            old(reader).bytes(),
            old(reader).pos(),
            0,
            parent_id,
            EntryKind::TextureLinks,
            &*old(node_map),
            &*final(node_map),
            r,
        ),
{
    deserialize_entries(reader, 0, parent_id, node_map, EntryKind::TextureLinks)
}

} // verus!
