//! Vertex (position) buffers of MDL0 models.
use vstd::prelude::*;

use crate::error::{corrupted, reason_with_value, EditorError, EditorResult};
use crate::format::encoding::Deserialize;
use crate::format::mdl0::util::{
    deserialize_vector_data, scalars_error, scalars_ok, vectors_at, scalar_size, vertex_format_of, Scalar, VectorDivisor,
    VertexFormat,
};
use crate::shared::util::{can_read, i32_be, u16_be, u32_be, u32s_at, RefCursor};

use crate::format::mdl0::section::{deserialize_entries, EntryKind};
use crate::node::node::VirtualNodeBody;
use crate::node::refs::{VirtualNodeId, VirtualNodeMap};
verus! {

/// Layout code: two components per vertex.
pub const COMPONENTS_XY: u32 = 0x0;

/// Layout code: three components per vertex.
pub const COMPONENTS_XYZ: u32 = 0x1;

/// The vertices of a buffer.
pub enum VertexData {
    /// Two components per vertex.
    Xy(Vec<Vec<Scalar>>),
    /// Three components per vertex.
    Xyz(Vec<Vec<Scalar>>),
}

impl VertexData {
    /// The vertices, whichever the layout.
    pub open spec fn entries(&self) -> Seq<Vec<Scalar>> {
        match self {
            VertexData::Xy(x) => x@,
            VertexData::Xyz(x) => x@,
        }
    }

    /// Number of components of each vertex.
    pub fn components(&self) -> (r: usize)
        ensures
            r == (if self is Xy {
                2usize
            } else {
                3usize
            }),
    {
        match self {
            VertexData::Xy(_) => 2,
            VertexData::Xyz(_) => 3,
        }
    }

    /// Number of vertices.
    pub fn len(&self) -> (r: usize)
        ensures
            r == self.entries().len(),
    {
        match self {
            VertexData::Xy(x) => x.len(),
            VertexData::Xyz(x) => x.len(),
        }
    }
}

/// A buffer of vertex positions.
pub struct Vertices {
    /// Index of this buffer in the `Vertices` section of the model.
    pub index: u32,
    /// Data type of the components.
    pub format: VertexFormat,
    /// Integer components stand for `component / 2^divisor`.
    pub divisor: u8,
    /// The size in bytes of each vertex.
    pub stride: u8,
    /// Bits of the three single-precision coordinates of the minimum of the bounding box.
    pub bounding_volume_min: [u32; 3],
    /// Bits of the three single-precision coordinates of the maximum of the bounding box.
    pub bounding_volume_max: [u32; 3],
    pub vertices: VertexData,
}

/// Number of components per vertex of a buffer with layout code `c`.
pub open spec fn vertex_components(c: u32) -> nat {
    if c == COMPONENTS_XYZ {
        3
    } else {
        2
    }
}

/// Positions with components code 1 have three coordinates (x, y, z); every other code
/// gives two (x, y).
pub proof fn lemma_vertex_components(c: u32)
    ensures
        vertex_components(1) == 3,
        c != 1 ==> vertex_components(c) == 2,
{
}

/// Where the vertex buffer at `p` of `s` can be read, its offsets taken from `header_start`.
pub open spec fn vertices_ok(s: Seq<u8>, p: int, header_start: u32) -> bool {
    let c = u32_be(s, p + 20);
    let q = (header_start as i64 + i32_be(s, p + 8) as i64) as u64 as int;
    let f = vertex_format_of(u32_be(s, p + 24));
    &&& can_read(s, p, 56)
    &&& u32_be(s, p + 24) <= 4
    &&& c <= 1
    &&& scalars_ok(s, q, u16_be(s, p + 30) * vertex_components(c), f, VectorDivisor::Custom(s[p + 28]))
}

/// Whether `e` is the error that reading the vertex buffer at `p` of `s` gives where it
/// cannot be read: an unknown format or layout code, the end of the input within its
/// header, or that of reading its components (see [`scalars_error`]).
pub open spec fn vertices_error(s: Seq<u8>, p: int, e: EditorError) -> bool {
    if !can_read(s, p, 28) {
        e is IoError
    } else if u32_be(s, p + 24) > 4 {
        e is Corrupted
    } else if !can_read(s, p, 56) {
        e is IoError
    } else if u32_be(s, p + 20) > 1 {
        e is Corrupted
    } else {
        scalars_error(vertex_format_of(u32_be(s, p + 24)), VectorDivisor::Custom(s[p + 28]), e)
    }
}

/// Whether `v` is the vertex buffer stored at `p` of `s`.
pub open spec fn vertices_is(s: Seq<u8>, p: int, header_start: u32, v: Vertices) -> bool {
    let c = u32_be(s, p + 20);
    let q = (header_start as i64 + i32_be(s, p + 8) as i64) as u64 as int;
    let f = vertex_format_of(u32_be(s, p + 24));
    let count = u16_be(s, p + 30) as nat;
    let data = vectors_at(s, q, count, vertex_components(c), f, s[p + 28] as u32);
    &&& v.index == u32_be(s, p + 16)
    &&& v.format == f
    &&& v.divisor == s[p + 28]
    &&& v.stride == s[p + 29]
    &&& v.bounding_volume_min@ == u32s_at(s, p + 32, 3)
    &&& v.bounding_volume_max@ == u32s_at(s, p + 44, 3)
    &&& (c == COMPONENTS_XYZ <==> v.vertices is Xyz)
    &&& v.vertices.entries().len() == count
    &&& forall|k: int| 0 <= k < count ==> (#[trigger] v.vertices.entries()[k])@ == data[k]
}

/// Where each field of the value lies: the bytes it is read from.
pub proof fn lemma_vertices_layout(s: Seq<u8>, p: int, header_start: u32, v: Vertices)
    requires
        vertices_is(s, p, header_start, v),
    ensures
        (v.index == u32_be(s, p + 16)),
        (v.format == (vertex_format_of(u32_be(s, p + 24)))),
        (v.divisor == s[p + 28]),
        (v.stride == s[p + 29]),
        (v.bounding_volume_min@ == u32s_at(s, p + 32, 3)),
        (v.bounding_volume_max@ == u32s_at(s, p + 44, 3)),
        (((u32_be(s, p + 20)) == COMPONENTS_XYZ <==> v.vertices is Xyz)),
        (v.vertices.entries().len() == (u16_be(s, p + 30) as nat)),
        (forall|k: int| 0 <= k < (u16_be(s, p + 30) as nat) ==> (#[trigger] v.vertices.entries()[k])@ == (vectors_at(s, ((header_start as i64 + i32_be(s, p + 8) as i64) as u64 as int), (u16_be(s, p + 30) as nat), vertex_components((u32_be(s, p + 20))), (vertex_format_of(u32_be(s, p + 24))), s[p + 28] as u32))[k]),
{
}

/// Reads three big-endian words.
pub fn read_u32x3(reader: &mut RefCursor) -> (r: EditorResult<[u32; 3]>)
    ensures
        final(reader).bytes() == old(reader).bytes(),
        match r {
            Ok(v) => can_read(old(reader).bytes(), old(reader).pos(), 12) && v@ == u32s_at(
                old(reader).bytes(),
                old(reader).pos(),
                3,
            ) && final(reader).pos() == old(reader).pos() + 12,
            Err(e) => !can_read(old(reader).bytes(), old(reader).pos(), 12) && e is IoError,
        },
{
    let ghost s = reader.bytes();
    let ghost p = reader.pos();
    if !reader.has(12) {
        return Err(reader.read_u32_vec(3).unwrap_err());
    }
    let a = reader.read_u32()?;
    let b = reader.read_u32()?;
    let c = reader.read_u32()?;
    let v = [a, b, c];
    assert(v@ =~= u32s_at(s, p, 3));
    Ok(v)
}

impl Vertices {
    /// Reads the vertex buffer at the position of `reader`; its data offset counts
    /// from `header_start`, the start of the MDL0 subfile.
    pub fn deserialize(reader: &mut RefCursor, header_start: u32) -> (r: EditorResult<Self>)
        ensures
            final(reader).bytes() == old(reader).bytes(),
            ({
                let s = old(reader).bytes();
                let p = old(reader).pos();
                match r {
                    Ok(v) => vertices_ok(s, p, header_start) && vertices_is(s, p, header_start, v) && final(reader).pos()
                        == (header_start as i64 + i32_be(s, p + 8) as i64) as u64 + u16_be(s, p + 30) * (
                    vertex_components(u32_be(s, p + 20)) * scalar_size(vertex_format_of(u32_be(s, p + 24)))),
                    Err(e) => !vertices_ok(s, p, header_start) && vertices_error(s, p, e),
                }
            }),
    {
        let _length = reader.read_u32()?;
        let _mdl0_offset = reader.read_i32()?;
        let data_offset = reader.read_i32()?;
        let _name_offset = reader.read_i32()?;
        let index = reader.read_u32()?;
        let component_count = reader.read_u32()?;
        let format = VertexFormat::deserialize(reader)?;
        let divisor = reader.read_u8()?;
        let stride = reader.read_u8()?;
        let vertex_count = reader.read_u16()?;
        let bounding_volume_min = read_u32x3(reader)?;
        let bounding_volume_max = read_u32x3(reader)?;
        let vertices_start: i64 = header_start as i64 + data_offset as i64;
        reader.set_position(vertices_start as u64);
        let vertices = if component_count == COMPONENTS_XY {
            VertexData::Xy(
                deserialize_vector_data(reader, vertex_count as usize, 2, format, VectorDivisor::Custom(divisor))?,
            )
        } else if component_count == COMPONENTS_XYZ {
            VertexData::Xyz(
                deserialize_vector_data(reader, vertex_count as usize, 3, format, VectorDivisor::Custom(divisor))?,
            )
        } else {
            return Err(
                corrupted(
                    reason_with_value("invalid vertex component count: ", component_count as u64, " (expected 2 or 3)"),
                    Some(reader.position()),
                ),
            );
        };
        Ok(Vertices { index, format, divisor, stride, bounding_volume_min, bounding_volume_max, vertices })
    }
}

/// Reads the section of vertex buffers at the position of `reader`: a node for each entry
/// of its index group, attached to `parent_id`. Data offsets count from `header_start`,
/// the start of the MDL0 subfile.
pub fn deserialize_virtual(
    reader: &mut RefCursor,
    header_start: u32,
    parent_id: VirtualNodeId,
    node_map: &mut VirtualNodeMap,
) -> (r: EditorResult<VirtualNodeBody>)
    ensures
        final(reader).bytes() == old(reader).bytes(),
        crate::format::mdl0::section::entries_result(
            old(reader).bytes(),
            old(reader).pos(),
            header_start,
            parent_id,
            EntryKind::Vertices,
            &*old(node_map),
            &*final(node_map),
            r,
        ),
{
    deserialize_entries(reader, header_start, parent_id, node_map, EntryKind::Vertices)
}

} // verus!
