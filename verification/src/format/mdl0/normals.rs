//! Normal buffers of MDL0 models.
use vstd::prelude::*;

use crate::error::{corrupted, reason_with_value, EditorError, EditorResult};
use crate::format::encoding::Deserialize;
use crate::format::mdl0::util::{
    deserialize_vector_data, scalar_size, scalars_error, scalars_ok, vectors_at, vertex_format_of_normal, divisor_shift,
    Scalar, VectorDivisor, VertexFormat,
};
use crate::shared::util::{can_read, i32_be, u16_be, u32_be, RefCursor};

use crate::format::mdl0::section::{deserialize_entries, EntryKind};
use crate::node::node::VirtualNodeBody;
use crate::node::refs::{VirtualNodeId, VirtualNodeMap};
verus! {

/// Layout code: only the normal of each entry is stored.
pub const COMPONENTS_NORMAL: u32 = 0x0;

/// Layout code: normal, binormal and tangent of each entry are stored.
pub const COMPONENTS_ALL: u32 = 0x1;

/// Layout code: as [`COMPONENTS_NORMAL`].
pub const COMPONENTS_ANY: u32 = 0x2;

/// The formats of normal data: those of [`VertexFormat`] that are signed, with the
/// same codes.
#[derive(Debug, Copy, Clone, PartialEq, Eq)]
pub enum NormalFormat {
    Int8,
    Int16,
    Float32,
    /// Fallback for codes that name no normal format.
    Invalid,
}

/// The normal format with code `code`: 1, 3 and 4 name a format, any other code is `Invalid`.
pub open spec fn normal_format_of(code: u32) -> NormalFormat {
    if code == 1 {
        NormalFormat::Int8
    } else if code == 3 {
        NormalFormat::Int16
    } else if code == 4 {
        NormalFormat::Float32
    } else {
        NormalFormat::Invalid
    }
}

/// The codes that the file format assigns: each code stated here names the value
/// beside it, and every code not listed gives the value of the last line.
pub proof fn lemma_normal_format_codes()
    ensures
        normal_format_of(1) == NormalFormat::Int8,
        normal_format_of(3) == NormalFormat::Int16,
        normal_format_of(4) == NormalFormat::Float32,
        forall|code: u32| !(code == 1 || code == 3 || code == 4) ==> #[trigger] normal_format_of(code) == NormalFormat::Invalid,
{
}

impl NormalFormat {
    /// The format with the given code; codes other than 1, 3 and 4 give `Invalid`.
    pub fn from_bits(bits: u8) -> (r: Self)
        ensures
            r == normal_format_of(bits as u32),
    {
        match bits {
            1 => NormalFormat::Int8,
            3 => NormalFormat::Int16,
            4 => NormalFormat::Float32,
            _ => NormalFormat::Invalid,
        }
    }

    /// The format with code `value`, which must be 1, 3 or 4.
    pub fn try_from(value: u32) -> (r: EditorResult<Self>)
        ensures
            match r {
                Ok(f) => (value == 1 || value == 3 || value == 4) && f == normal_format_of(value),
                Err(e) => !(value == 1 || value == 3 || value == 4) && e is Corrupted,
            },
    {
        match value {
            1 => Ok(NormalFormat::Int8),
            3 => Ok(NormalFormat::Int16),
            4 => Ok(NormalFormat::Float32),
            v => Err(
                corrupted(reason_with_value("invalid vertex format: ", v as u64, " (expected 1, 3 or 4)"), None),
            ),
        }
    }
}

/// Whether `code` names a normal format.
pub open spec fn normal_code_ok(code: u32) -> bool {
    code == 1 || code == 3 || code == 4
}

impl Deserialize for NormalFormat {
    fn deserialize(reader: &mut RefCursor) -> (r: EditorResult<Self>)
        ensures
            final(reader).bytes() == old(reader).bytes(),
            ({
                let s = old(reader).bytes();
                let p = old(reader).pos();
                match r {
                    Ok(f) => can_read(s, p, 4) && normal_code_ok(u32_be(s, p)) && f == normal_format_of(
                        u32_be(s, p),
                    ) && final(reader).pos() == p + 4,
                    Err(e) => if can_read(s, p, 4) {
                        !normal_code_ok(u32_be(s, p)) && e is Corrupted
                    } else {
                        e is IoError
                    },
                }
            }),
    {
        let word = reader.read_u32()?;
        Self::try_from(word)
    }
}

/// The type of normals that are stored in a normal buffer.
#[derive(Debug, Copy, Clone, PartialEq, Eq)]
pub enum NormalBufType {
    /// Only the normal itself is included in the buffer.
    Normal,
    /// All three (normal/binormal/tangent) vectors are included in the buffer.
    All,
}

/// The entries of a normal buffer.
pub enum NormalBufData {
    /// Only the normal: three components per entry.
    Single(Vec<Vec<Scalar>>),
    /// The normal, binormal and tangent: nine components per entry.
    Triple(Vec<Vec<Scalar>>),
}

impl NormalBufData {
    /// Which vectors each entry holds.
    pub fn ty(&self) -> (r: NormalBufType)
        ensures
            r == (if self is Single {
                NormalBufType::Normal
            } else {
                NormalBufType::All
            }),
    {
        match self {
            NormalBufData::Single(_) => NormalBufType::Normal,
            NormalBufData::Triple(_) => NormalBufType::All,
        }
    }

    /// The entries, whichever the layout.
    pub open spec fn entries(&self) -> Seq<Vec<Scalar>> {
        match self {
            NormalBufData::Single(x) => x@,
            NormalBufData::Triple(x) => x@,
        }
    }

    /// Number of entries in the buffer; an entry of all three vectors counts once.
    pub fn len(&self) -> (r: usize)
        ensures
            r == self.entries().len(),
    {
        match self {
            NormalBufData::Single(x) => x.len(),
            NormalBufData::Triple(x) => x.len(),
        }
    }
}

/// A buffer of normals that the draw commands of shapes index into.
pub struct NormalBuf {
    /// Index of this buffer in the `Normals` section of the model.
    pub index: u32,
    /// Scalar data type of the normal vectors.
    pub format: NormalFormat,
    /// Integer components stand for `component / 2^divisor`.
    pub divisor: u8,
    /// The size in bytes of each entry.
    pub stride: u8,
    /// The normal data.
    pub normals: NormalBufData,
}

/// The first `n` components of `v` (all of them where it has fewer).
fn prefix(v: &Vec<Scalar>, n: usize) -> (r: Vec<Scalar>)
    ensures
        r@ == v@.take(if n <= v@.len() { n as int } else { v@.len() as int }),
{
    let end = if n <= v.len() { n } else { v.len() };
    let mut out: Vec<Scalar> = Vec::new();
    let mut i: usize = 0;
    while i < end
        invariant
            end <= v@.len(),
            i <= end,
            out@ == v@.take(i as int),
        decreases end - i,
    {
        out.push(v[i]);
        i = i + 1;
        assert(out@ =~= v@.take(i as int));
    }
    out
}

/// Number of components of each entry of a buffer with layout code `c`.
pub open spec fn normal_components(c: u32) -> nat {
    if c == COMPONENTS_ALL {
        9
    } else {
        3
    }
}

/// Normals with components code 1 (normal, binormal and tangent) have nine components;
/// every other code gives three.
pub proof fn lemma_normal_components(c: u32)
    ensures
        normal_components(1) == 9,
        c != 1 ==> normal_components(c) == 3,
{
}

/// Where the normal buffer at `p` of `s` can be read, its offsets taken from `header_start`.
pub open spec fn normal_buf_ok(s: Seq<u8>, p: int, header_start: u32) -> bool {
    let c = u32_be(s, p + 20);
    let q = (header_start as i64 + i32_be(s, p + 8) as i64) as u64 as int;
    let f = vertex_format_of_normal(normal_format_of(u32_be(s, p + 24)));
    &&& can_read(s, p, 32)
    &&& normal_code_ok(u32_be(s, p + 24))
    &&& c <= 2
    &&& scalars_ok(s, q, u16_be(s, p + 30) * normal_components(c), f, VectorDivisor::Custom(s[p + 28]))
}

/// Whether `e` is the error that reading the normal buffer at `p` of `s` gives where it
/// cannot be read: an unknown format or layout code, the end of the input within its
/// header, or that of reading its components (see [`scalars_error`]).
pub open spec fn normal_buf_error(s: Seq<u8>, p: int, e: EditorError) -> bool {
    if !can_read(s, p, 28) {
        e is IoError
    } else if !normal_code_ok(u32_be(s, p + 24)) {
        e is Corrupted
    } else if !can_read(s, p, 32) {
        e is IoError
    } else if u32_be(s, p + 20) > 2 {
        e is Corrupted
    } else {
        scalars_error(vertex_format_of_normal(normal_format_of(u32_be(s, p + 24))), VectorDivisor::Custom(s[p + 28]), e)
    }
}

/// Whether `nb` is the normal buffer stored at `p` of `s`.
pub open spec fn normal_buf_is(s: Seq<u8>, p: int, header_start: u32, nb: NormalBuf) -> bool {
    let c = u32_be(s, p + 20);
    let q = (header_start as i64 + i32_be(s, p + 8) as i64) as u64 as int;
    let f = vertex_format_of_normal(normal_format_of(u32_be(s, p + 24)));
    let count = u16_be(s, p + 30) as nat;
    let data = vectors_at(s, q, count, normal_components(c), f, s[p + 28] as u32);
    &&& nb.index == u32_be(s, p + 16)
    &&& nb.format == normal_format_of(u32_be(s, p + 24))
    &&& nb.divisor == s[p + 28]
    &&& nb.stride == s[p + 29]
    &&& (c == COMPONENTS_ALL <==> nb.normals is Triple)
    &&& nb.normals.entries().len() == count
    &&& forall|k: int| 0 <= k < count ==> (#[trigger] nb.normals.entries()[k])@ == data[k]
}

/// Where each field of the value lies: the bytes it is read from.
pub proof fn lemma_normal_buf_layout(s: Seq<u8>, p: int, header_start: u32, nb: NormalBuf)
    requires
        normal_buf_is(s, p, header_start, nb),
    ensures
        (nb.index == u32_be(s, p + 16)),
        (nb.format == normal_format_of(u32_be(s, p + 24))),
        (nb.divisor == s[p + 28]),
        (nb.stride == s[p + 29]),
        (((u32_be(s, p + 20)) == COMPONENTS_ALL <==> nb.normals is Triple)),
        (nb.normals.entries().len() == (u16_be(s, p + 30) as nat)),
        (forall|k: int| 0 <= k < (u16_be(s, p + 30) as nat) ==> (#[trigger] nb.normals.entries()[k])@ == (vectors_at(s, ((header_start as i64 + i32_be(s, p + 8) as i64) as u64 as int), (u16_be(s, p + 30) as nat), normal_components((u32_be(s, p + 20))), (vertex_format_of_normal(normal_format_of(u32_be(s, p + 24)))), s[p + 28] as u32))[k]),
{
}

impl NormalBuf {
    /// The normal of entry `index`, if there is one.
    pub fn get_normal(&self, index: usize) -> (r: Option<Vec<Scalar>>)
        ensures
            match r {
                Some(v) => index < self.normals.entries().len() && v@ == self.normals.entries()[index as int]@.take(
                    if 3 <= self.normals.entries()[index as int]@.len() {
                        3
                    } else {
                        self.normals.entries()[index as int]@.len() as int
                    },
                ),
                None => index >= self.normals.entries().len(),
            },
    {
        let entries = match &self.normals {
            NormalBufData::Single(x) => x,
            NormalBufData::Triple(x) => x,
        };
        if index < entries.len() {
            Some(prefix(&entries[index], 3))
        } else {
            None
        }
    }

    /// Reads the normal buffer at the position of `reader`; its data offset counts
    /// from `header_start`, the start of the MDL0 subfile.
    pub fn deserialize(reader: &mut RefCursor, header_start: u32) -> (r: EditorResult<Self>)
        ensures
            final(reader).bytes() == old(reader).bytes(),
            ({
                let s = old(reader).bytes();
                let p = old(reader).pos();
                match r {
                    Ok(nb) => normal_buf_ok(s, p, header_start) && normal_buf_is(s, p, header_start, nb)
                        && final(reader).pos() == (header_start as i64 + i32_be(s, p + 8) as i64) as u64 + u16_be(
                        s,
                        p + 30,
                    ) * (normal_components(u32_be(s, p + 20)) * scalar_size(
                        vertex_format_of_normal(normal_format_of(u32_be(s, p + 24))),
                    )),
                    Err(e) => !normal_buf_ok(s, p, header_start) && normal_buf_error(s, p, e),
                }
            }),
    {
        let ghost s = reader.bytes();
        let ghost p = reader.pos();
        let _length = reader.read_u32()?;
        let _mdl0_offset = reader.read_i32()?;
        let data_offset = reader.read_i32()?;
        let _name_offset = reader.read_i32()?;
        let index = reader.read_u32()?;
        let component_count = reader.read_u32()?;
        let format = NormalFormat::deserialize(reader)?;
        let divisor = reader.read_u8()?;
        let stride = reader.read_u8()?;
        let normal_count = reader.read_u16()?;
        let normals_start: i64 = header_start as i64 + data_offset as i64;
        reader.set_position(normals_start as u64);
        let vformat = VertexFormat::from(format);
        assert(vformat == vertex_format_of_normal(format));
        let normals = if component_count == COMPONENTS_NORMAL || component_count == COMPONENTS_ANY {
            let v = deserialize_vector_data(reader, normal_count as usize, 3, vformat, VectorDivisor::Custom(divisor))?;
            NormalBufData::Single(v)
        } else if component_count == COMPONENTS_ALL {
            let v = deserialize_vector_data(reader, normal_count as usize, 9, vformat, VectorDivisor::Custom(divisor))?;
            NormalBufData::Triple(v)
        } else {
            return Err(
                corrupted(
                    reason_with_value("invalid component count: ", component_count as u64, " (expected 0-2)"),
                    Some(reader.position()),
                ),
            );
        };
        Ok(NormalBuf { index, format, divisor, stride, normals })
    }
}

/// Reads the section of normal buffers at the position of `reader`: a node for each entry
/// of its index group, attached to `parent_id`. Data offsets count from `header_start`,
/// the start of the MDL0 subfile.
pub fn deserialize_normals_section(
    reader: &mut RefCursor,
    header_start: u32,
    parent_id: VirtualNodeId,
    node_map: &mut VirtualNodeMap,
) -> (r: EditorResult<VirtualNodeBody>)
    ensures
        final(reader).bytes() == old(reader).bytes(),
        crate::format::mdl0::section::entries_result(
            old(reader).bytes(),
            old(reader).pos(),
            header_start,
            parent_id,
            EntryKind::Normals,
            &*old(node_map),
            &*final(node_map),
            r,
        ),
{
    deserialize_entries(reader, header_start, parent_id, node_map, EntryKind::Normals)
}

} // verus!
