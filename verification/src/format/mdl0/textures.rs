//! Texture records of MDL0 models, which this crate does not read yet.
use vstd::prelude::*;

use crate::error::{unsupported, EditorResult};
use crate::format::encoding::Deserialize;
use crate::format::mdl0::section::{deserialize_entries, EntryKind};
use crate::node::node::VirtualNodeBody;
use crate::node::refs::{VirtualNodeId, VirtualNodeMap};
use crate::shared::util::RefCursor;

verus! {

/// A texture record.
#[derive(Debug, Copy, Clone, PartialEq, Eq)]
pub struct Texture {}

impl Deserialize for Texture {
    /// The layout of texture records is not known to this crate: reading one fails.
    fn deserialize(reader: &mut RefCursor) -> (r: EditorResult<Self>)
        ensures
            final(reader).bytes() == old(reader).bytes(),
            r matches Err(e) && e is Unsupported,
    {
        Err(unsupported("texture records are not read".to_owned(), Some(reader.position())))
    }
}

/// Reads a textures section at the position of `reader`: a node for each entry of its
/// index group, attached to `parent_id`. As texture records cannot be read, this only
/// succeeds for a section without entries.
pub fn deserialize_virtual(reader: &mut RefCursor, parent_id: VirtualNodeId, node_map: &mut VirtualNodeMap) -> (r: EditorResult<VirtualNodeBody>)
    ensures
        final(reader).bytes() == old(reader).bytes(),
        crate::format::mdl0::section::entries_result(
            old(reader).bytes(),
            old(reader).pos(),
            0,
            parent_id,
            EntryKind::Textures,
            &*old(node_map),
            &*final(node_map),
            r,
        ),
{
    deserialize_entries(reader, 0, parent_id, node_map, EntryKind::Textures)
}

} // verus!
