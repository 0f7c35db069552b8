//! TEVs (texture environments) of MDL0 models.
use vstd::prelude::*;

use crate::error::{corrupted, EditorError, EditorResult};
use crate::format::encoding::Deserialize;
use crate::format::mdl0::gx::load_bp::{bp_error, load_bp_of};
use crate::format::mdl0::gx::{GxBytecode, GxOpCode};
use crate::format::mdl0::section::{deserialize_entries, EntryKind};
use crate::node::node::VirtualNodeBody;
use crate::node::refs::{VirtualNodeId, VirtualNodeMap};
use crate::shared::util::{can_read, u24_be, RefCursor};

verus! {

/// A texture environment: the scales of its textures and its `LoadBP` bytecode.
pub struct Tev {
    pub tex_scales: [u8; 8],
    pub bytecode: GxBytecode,
}

/// Where the TEV at `p` of `s` can be read: its header (of which the padding is
/// skipped), its texture scales and its bytecode, a single `LoadBP` command.
pub open spec fn tev_ok(s: Seq<u8>, p: int) -> bool {
    &&& can_read(s, p, 13)
    &&& p + 32 <= u64::MAX
    &&& can_read(s, p + 16, 8)
    &&& can_read(s, p + 32, 5)
    &&& s[p + 32] == 0x61
    &&& load_bp_of(s[p + 33], u24_be(s, p + 34)) is Some
}

/// Whether `e` is the error that reading the TEV at `p` of `s` gives where it cannot be
/// read: the end of the input within its header or texture scales, a corruption error
/// for a position past the largest one, or that of reading its `LoadBP` command.
pub open spec fn tev_error(s: Seq<u8>, p: int, e: EditorError) -> bool {
    if !can_read(s, p, 13) {
        e is IoError
    } else if !(p + 32 <= u64::MAX) {
        e is Corrupted
    } else if !can_read(s, p + 16, 8) {
        e is IoError
    } else {
        bp_error(s, p + 32, e)
    }
}

/// Whether `t` is the TEV stored at `p` of `s`.
pub open spec fn tev_is(s: Seq<u8>, p: int, t: Tev) -> bool {
    &&& t.tex_scales@ == s.subrange(p + 16, p + 24)
    &&& t.bytecode.commands@.len() == 1
    &&& t.bytecode.commands@[0] matches GxOpCode::LoadBp(op) && Some(op) == load_bp_of(s[p + 33], u24_be(s, p + 34))
}

/// Where each field of the value lies: the bytes it is read from.
pub proof fn lemma_tev_layout(s: Seq<u8>, p: int, t: Tev)
    requires
        tev_is(s, p, t),
    ensures
        (t.tex_scales@ == s.subrange(p + 16, p + 24)),
        (t.bytecode.commands@.len() == 1),
        (t.bytecode.commands@[0] matches GxOpCode::LoadBp(op) && Some(op) == load_bp_of(s[p + 33], u24_be(s, p + 34))),
{
}

impl Deserialize for Tev {
    fn deserialize(reader: &mut RefCursor) -> (r: EditorResult<Self>)
        ensures
            final(reader).bytes() == old(reader).bytes(),
            ({
                let s = old(reader).bytes();
                let p = old(reader).pos();
                match r {
                    Ok(t) => tev_ok(s, p) && tev_is(s, p, t) && final(reader).pos() == p + 37,
                    Err(e) => !tev_ok(s, p) && tev_error(s, p, e),
                }
            }),
    {
        let _length = reader.read_u32()?;
        let _mdl0_offset = reader.read_i32()?;
        let _index = reader.read_i32()?;
        let _stage_count = reader.read_u8()?;
        let at = reader.position();
        if at > u64::MAX - 19 {
            return Err(corrupted("TEV record overflows".to_owned(), Some(at)));
        }
        reader.set_position(at + 3);
        let v = reader.read_bytes(8)?;
        let tex_scales = [v[0], v[1], v[2], v[3], v[4], v[5], v[6], v[7]];
        assert(tex_scales@ =~= v@);
        let at = reader.position();
        reader.set_position(at + 8);
        let bytecode = GxBytecode::deserialize_tev_data(reader)?;
        Ok(Tev { tex_scales, bytecode })
    }
}

/// Reads the TEVs section at the position of `reader`: a node for each entry of its
/// index group, attached to `parent_id`.
pub fn deserialize_virtual(reader: &mut RefCursor, parent_id: VirtualNodeId, node_map: &mut VirtualNodeMap) -> (r: EditorResult<VirtualNodeBody>)
    ensures
        final(reader).bytes() == old(reader).bytes(),
        crate::format::mdl0::section::entries_result(
            old(reader).bytes(),
            old(reader).pos(),
            0,
            parent_id,
            EntryKind::Tevs,
            &*old(node_map),
            &*final(node_map),
            r,
        ),
{
    deserialize_entries(reader, 0, parent_id, node_map, EntryKind::Tevs)
}

} // verus!
