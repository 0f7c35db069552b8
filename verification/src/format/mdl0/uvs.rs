//! Texture coordinate (UV) buffers of MDL0 models.
use vstd::prelude::*;

use crate::error::{corrupted, reason_with_value, EditorError, EditorResult};
use crate::format::encoding::Deserialize;
use crate::format::mdl0::util::{
    deserialize_scalar_data, deserialize_vector_data, scalars_at, scalars_error, scalars_ok, vectors_at,
    scalar_size, vertex_format_of, Scalar, VectorDivisor, VertexFormat,
};
use crate::shared::util::{can_read, i32_be, u16_be, u32_be, u32s_at, RefCursor};

use crate::format::mdl0::section::{deserialize_entries, EntryKind};
use crate::node::node::VirtualNodeBody;
use crate::node::refs::{VirtualNodeId, VirtualNodeMap};
verus! {

/// Layout code: one coordinate (S) per entry.
pub const COMPONENTS_S: u32 = 0x00;

/// Layout code: two coordinates (S, T) per entry.
pub const COMPONENTS_ST: u32 = 0x01;

/// The coordinates of a UV buffer.
pub enum UvData {
    S(Vec<Scalar>),
    St(Vec<Vec<Scalar>>),
}

/// A buffer of texture coordinates.
pub struct Uvs {
    /// Index of this buffer in the `UVs` section of the model.
    pub index: u32,
    /// Data type of the components.
    pub format: VertexFormat,
    /// The size in bytes of each entry.
    pub stride: u8,
    pub uvs: UvData,
    /// Bits of the two single-precision coordinates of the minimum of the bounding box.
    pub bounding_volume_min: [u32; 2],
    /// Bits of the two single-precision coordinates of the maximum of the bounding box.
    pub bounding_volume_max: [u32; 2],
}

/// Number of components per entry of a buffer with layout code `c`.
pub open spec fn uv_components(c: u32) -> nat {
    if c == COMPONENTS_ST {
        2
    } else {
        1
    }
}

/// Where the UV buffer at `p` of `s` can be read, its offsets taken from `header_start`.
pub open spec fn uvs_ok(s: Seq<u8>, p: int, header_start: u32) -> bool {
    let c = u32_be(s, p + 20);
    let q = (header_start as i64 + i32_be(s, p + 8) as i64) as u64 as int;
    let f = vertex_format_of(u32_be(s, p + 24));
    &&& can_read(s, p, 48)
    &&& u32_be(s, p + 24) <= 4
    &&& c <= 1
    &&& scalars_ok(s, q, u16_be(s, p + 30) * uv_components(c), f, VectorDivisor::Custom(s[p + 28]))
}

/// Whether `e` is the error that reading the UV buffer at `p` of `s` gives where it
/// cannot be read: an unknown format or layout code, the end of the input within its
/// header, or that of reading its components (see [`scalars_error`]).
pub open spec fn uvs_error(s: Seq<u8>, p: int, e: EditorError) -> bool {
    if !can_read(s, p, 28) {
        e is IoError
    } else if u32_be(s, p + 24) > 4 {
        e is Corrupted
    } else if !can_read(s, p, 48) {
        e is IoError
    } else if u32_be(s, p + 20) > 1 {
        e is Corrupted
    } else {
        scalars_error(vertex_format_of(u32_be(s, p + 24)), VectorDivisor::Custom(s[p + 28]), e)
    }
}

/// Whether `u` is the UV buffer stored at `p` of `s`.
pub open spec fn uvs_is(s: Seq<u8>, p: int, header_start: u32, u: Uvs) -> bool {
    let c = u32_be(s, p + 20);
    let q = (header_start as i64 + i32_be(s, p + 8) as i64) as u64 as int;
    let f = vertex_format_of(u32_be(s, p + 24));
    let count = u16_be(s, p + 30) as nat;
    let shift = s[p + 28] as u32;
    &&& u.index == u32_be(s, p + 16)
    &&& u.format == f
    &&& u.stride == s[p + 29]
    &&& u.bounding_volume_min@ == u32s_at(s, p + 32, 2)
    &&& u.bounding_volume_max@ == u32s_at(s, p + 40, 2)
    &&& match u.uvs {
        UvData::S(v) => c == COMPONENTS_S && v@ == scalars_at(s, q, count, f, shift),
        UvData::St(v) => c == COMPONENTS_ST && v@.len() == count && forall|k: int|
            0 <= k < count ==> (#[trigger] v@[k])@ == vectors_at(s, q, count, 2, f, shift)[k],
    }
}

/// Where each field of the value lies: the bytes it is read from.
pub proof fn lemma_uvs_layout(s: Seq<u8>, p: int, header_start: u32, u: Uvs)
    requires
        uvs_is(s, p, header_start, u),
    ensures
        (u.index == u32_be(s, p + 16)),
        (u.format == (vertex_format_of(u32_be(s, p + 24)))),
        (u.stride == s[p + 29]),
        (u.bounding_volume_min@ == u32s_at(s, p + 32, 2)),
        (u.bounding_volume_max@ == u32s_at(s, p + 40, 2)),
        (match u.uvs { UvData::S(v) => (u32_be(s, p + 20)) == COMPONENTS_S && v@ == scalars_at(s, ((header_start as i64 + i32_be(s, p + 8) as i64) as u64 as int), (u16_be(s, p + 30) as nat), (vertex_format_of(u32_be(s, p + 24))), (s[p + 28] as u32)), UvData::St(v) => (u32_be(s, p + 20)) == COMPONENTS_ST && v@.len() == (u16_be(s, p + 30) as nat) && forall|k: int| 0 <= k < (u16_be(s, p + 30) as nat) ==> (#[trigger] v@[k])@ == vectors_at(s, ((header_start as i64 + i32_be(s, p + 8) as i64) as u64 as int), (u16_be(s, p + 30) as nat), 2, (vertex_format_of(u32_be(s, p + 24))), (s[p + 28] as u32))[k], }),
{
}

/// Reads two big-endian words.
fn read_u32x2(reader: &mut RefCursor) -> (r: EditorResult<[u32; 2]>)
    ensures
        final(reader).bytes() == old(reader).bytes(),
        match r {
            Ok(v) => can_read(old(reader).bytes(), old(reader).pos(), 8) && v@ == u32s_at(
                old(reader).bytes(),
                old(reader).pos(),
                2,
            ) && final(reader).pos() == old(reader).pos() + 8,
            Err(e) => !can_read(old(reader).bytes(), old(reader).pos(), 8) && e is IoError,
        },
{
    let ghost s = reader.bytes();
    let ghost p = reader.pos();
    if !reader.has(8) {
        return Err(reader.read_u32_vec(2).unwrap_err());
    }
    let a = reader.read_u32()?;
    let b = reader.read_u32()?;
    let v = [a, b];
    assert(v@ =~= u32s_at(s, p, 2));
    Ok(v)
}

impl Uvs {
    /// Reads the UV buffer at the position of `reader`; its data offset counts from
    /// `header_start`, the start of the MDL0 subfile.
    pub fn deserialize(reader: &mut RefCursor, header_start: u32) -> (r: EditorResult<Self>)
        ensures
            final(reader).bytes() == old(reader).bytes(),
            ({
                let s = old(reader).bytes();
                let p = old(reader).pos();
                match r {
                    Ok(u) => uvs_ok(s, p, header_start) && uvs_is(s, p, header_start, u) && final(reader).pos() == (
                    header_start as i64 + i32_be(s, p + 8) as i64) as u64 + u16_be(s, p + 30) * (uv_components(
                        u32_be(s, p + 20),
                    ) * scalar_size(vertex_format_of(u32_be(s, p + 24)))),
                    Err(e) => !uvs_ok(s, p, header_start) && uvs_error(s, p, e),
                }
            }),
    {
        let _length = reader.read_u32()?;
        let _mdl0_offset = reader.read_i32()?;
        let data_offset = reader.read_i32()?;
        let _name_offset = reader.read_i32()?;
        let index = reader.read_u32()?;
        let component_count = reader.read_u32()?;
        let format = VertexFormat::deserialize(reader)?;
        let divisor = reader.read_u8()?;
        let stride = reader.read_u8()?;
        let uv_count = reader.read_u16()?;
        let bounding_volume_min = read_u32x2(reader)?;
        let bounding_volume_max = read_u32x2(reader)?;
        let uv_start: i64 = header_start as i64 + data_offset as i64;
        reader.set_position(uv_start as u64);
        let uvs = if component_count == COMPONENTS_S {
            UvData::S(deserialize_scalar_data(reader, uv_count as usize, format, VectorDivisor::Custom(divisor))?)
        } else if component_count == COMPONENTS_ST {
            UvData::St(
                deserialize_vector_data(reader, uv_count as usize, 2, format, VectorDivisor::Custom(divisor))?,
            )
        } else {
            return Err(
                corrupted(
                    reason_with_value("invalid UV format: ", component_count as u64, " (expected 0, 1)"),
                    None,
                ),
            );
        };
        Ok(Uvs { index, format, stride, uvs, bounding_volume_min, bounding_volume_max })
    }
}

/// Reads the section of UV buffers at the position of `reader`: a node for each entry
/// of its index group, attached to `parent_id`. Data offsets count from `header_start`,
/// the start of the MDL0 subfile.
pub fn deserialize_virtual(
    reader: &mut RefCursor,
    header_start: u32,
    parent_id: VirtualNodeId,
    node_map: &mut VirtualNodeMap,
) -> (r: EditorResult<VirtualNodeBody>)
    ensures
        final(reader).bytes() == old(reader).bytes(),
        crate::format::mdl0::section::entries_result(
            old(reader).bytes(),
            old(reader).pos(),
            header_start,
            parent_id,
            EntryKind::Uvs,
            &*old(node_map),
            &*final(node_map),
            r,
        ),
{
    deserialize_entries(reader, header_start, parent_id, node_map, EntryKind::Uvs)
}

} // verus!
