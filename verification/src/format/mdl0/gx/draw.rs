//! Draw commands and the vertices they carry, decoded with a vertex declaration.
use vstd::prelude::*;

use crate::error::{EditorError, EditorResult};
use crate::format::bits::{bit, field};
use crate::format::mdl0::colors::{color_at, color_format_of, color_stride, deserialize_color};
use crate::format::mdl0::gx::load_cp::{vector_storage_of, VectorStorage};
use crate::format::mdl0::normals::normal_format_of;
use crate::format::mdl0::polygons::VertexDeclaration;
use crate::format::mdl0::util::{
    deserialize_scalar, deserialize_vector, fits, scalar_at, scalar_size, scalars_at, scalars_error, scalars_ok,
    vertex_format_of, vertex_format_of_normal, divisor_shift, Scalar, VectorDivisor, VertexFormat,
};
use crate::shared::util::{can_read, u16_be, RefCursor};

verus! {

/// Number of bytes an attribute stored as `st` takes, where its value takes `direct` bytes.
pub open spec fn storage_size(st: VectorStorage, direct: int) -> int {
    match st {
        VectorStorage::NotPresent => 0,
        VectorStorage::Index8 => 1,
        VectorStorage::Index16 => 2,
        VectorStorage::Direct => direct,
    }
}

/// Storage of the positions.
pub open spec fn pos_storage(d: VertexDeclaration) -> VectorStorage {
    vector_storage_of(field(d.vcd_lo.bits(), 9, 0x3))
}

/// Storage of the normals.
pub open spec fn norm_storage(d: VertexDeclaration) -> VectorStorage {
    vector_storage_of(field(d.vcd_lo.bits(), 11, 0x3))
}

/// Storage of color `c` (0 or 1).
pub open spec fn color_storage(d: VertexDeclaration, c: int) -> VectorStorage {
    vector_storage_of(field(d.vcd_lo.bits(), if c == 0 { 13 } else { 15 }, 0x3))
}

/// Storage of texture coordinate `i`.
pub open spec fn uv_storage(d: VertexDeclaration, i: int) -> VectorStorage {
    vector_storage_of(field(d.vcd_hi.bits(), (2 * i) as u32, 0x3))
}

/// Format of the positions.
pub open spec fn pos_format(d: VertexDeclaration) -> VertexFormat {
    vertex_format_of(field(d.vat_a.bits(), 1, 0x7))
}

/// Number of components of a position.
pub open spec fn pos_components(d: VertexDeclaration) -> int {
    if bit(d.vat_a.bits(), 0) {
        3
    } else {
        2
    }
}

/// Divisor of the positions.
pub open spec fn pos_divisor(d: VertexDeclaration) -> VectorDivisor {
    VectorDivisor::Custom(field(d.vat_a.bits(), 4, 0x1f) as u8)
}

/// Format of the normals.
pub open spec fn norm_format(d: VertexDeclaration) -> VertexFormat {
    vertex_format_of_normal(normal_format_of(field(d.vat_a.bits(), 10, 0x7)))
}

/// Number of components of a normal entry.
pub open spec fn norm_components(d: VertexDeclaration) -> int {
    if bit(d.vat_a.bits(), 9) {
        9
    } else {
        3
    }
}

/// Code of the format of color `c`.
pub open spec fn color_code(d: VertexDeclaration, c: int) -> u32 {
    field(d.vat_a.bits(), if c == 0 { 14 } else { 18 }, 0x7)
}

/// Whether color `c` has an alpha channel.
pub open spec fn color_alpha(d: VertexDeclaration, c: int) -> bool {
    bit(d.vat_a.bits(), if c == 0 { 13 } else { 17 })
}

/// The word and bit of the flag, format and divisor of texture coordinate `i`:
/// (flag word, flag bit, divisor word, divisor bit), words numbered A = 0, B = 1, C = 2.
pub open spec fn uv_layout(i: int) -> (int, u32, int, u32) {
    if i == 0 {
        (0, 21, 0, 25)
    } else if i == 1 {
        (1, 0, 1, 4)
    } else if i == 2 {
        (1, 9, 1, 13)
    } else if i == 3 {
        (1, 18, 1, 22)
    } else if i == 4 {
        (1, 27, 2, 0)
    } else if i == 5 {
        (2, 5, 2, 9)
    } else if i == 6 {
        (2, 14, 2, 18)
    } else {
        (2, 23, 2, 27)
    }
}

/// Word `w` (A = 0, B = 1, C = 2) of the vertex attribute table of `d`.
pub open spec fn vat_word(d: VertexDeclaration, w: int) -> u32 {
    if w == 0 {
        d.vat_a.bits()
    } else if w == 1 {
        d.vat_b.bits()
    } else {
        d.vat_c.bits()
    }
}

/// Whether texture coordinate `i` has two components.
pub open spec fn uv_extended(d: VertexDeclaration, i: int) -> bool {
    bit(vat_word(d, uv_layout(i).0), uv_layout(i).1)
}

/// Format of texture coordinate `i`.
pub open spec fn uv_format(d: VertexDeclaration, i: int) -> VertexFormat {
    vertex_format_of(field(vat_word(d, uv_layout(i).0), (uv_layout(i).1 + 1) as u32, 0x7))
}

/// Divisor of texture coordinate `i`.
pub open spec fn uv_divisor(d: VertexDeclaration, i: int) -> VectorDivisor {
    VectorDivisor::Custom(field(vat_word(d, uv_layout(i).2), uv_layout(i).3, 0x1f) as u8)
}

/// Number of bytes of attribute `k` of a vertex: 0 the position matrix index, 1 to 8
/// the texture matrix indices, 9 the position, 10 the normal, 11 and 12 the colors,
/// 13 to 20 the texture coordinates.
pub open spec fn attr_size(d: VertexDeclaration, k: int) -> int {
    if k <= 8 {
        if bit(d.vcd_lo.bits(), k as u32) {
            1
        } else {
            0
        }
    } else if k == 9 {
        storage_size(pos_storage(d), pos_components(d) * scalar_size(pos_format(d)))
    } else if k == 10 {
        storage_size(norm_storage(d), norm_components(d) * scalar_size(norm_format(d)))
    } else if k == 11 || k == 12 {
        storage_size(color_storage(d, k - 11), color_stride(color_format_of(color_code(d, k - 11))) as int)
    } else {
        storage_size(
            uv_storage(d, k - 13),
            (if uv_extended(d, k - 13) {
                2int
            } else {
                1int
            }) * scalar_size(uv_format(d, k - 13)),
        )
    }
}

/// Offset of attribute `k` from the start of a vertex.
pub open spec fn attr_offset(d: VertexDeclaration, k: nat) -> int
    decreases k,
{
    if k == 0 {
        0
    } else {
        attr_offset(d, (k - 1) as nat) + attr_size(d, k - 1)
    }
}

/// Number of bytes of a vertex.
pub open spec fn vertex_size(d: VertexDeclaration) -> int {
    attr_offset(d, 21)
}

/// Attributes never take a negative number of bytes, so offsets grow with `k`.
pub proof fn lemma_attr_offset_nonneg(d: VertexDeclaration, k: nat)
    ensures
        attr_offset(d, k) >= 0,
    decreases k,
{
    if k > 0 {
        lemma_attr_offset_nonneg(d, (k - 1) as nat);
        assert(attr_size(d, k - 1) >= 0) by {
            assert(scalar_size(pos_format(d)) >= 0);
            assert(scalar_size(norm_format(d)) >= 0);
            assert(pos_components(d) * scalar_size(pos_format(d)) >= 0) by (nonlinear_arith)
                requires
                    pos_components(d) >= 0,
                    scalar_size(pos_format(d)) >= 0,
            ;
            assert(norm_components(d) * scalar_size(norm_format(d)) >= 0) by (nonlinear_arith)
                requires
                    norm_components(d) >= 0,
                    scalar_size(norm_format(d)) >= 0,
            ;
        }
    }
}

/// Where attribute `k` of a vertex can be read at `q` of `s`.
pub open spec fn attr_ok(s: Seq<u8>, q: int, d: VertexDeclaration, k: int) -> bool {
    if k <= 8 {
        fits(s, q, attr_size(d, k))
    } else {
        let st = if k == 9 {
            pos_storage(d)
        } else if k == 10 {
            norm_storage(d)
        } else if k <= 12 {
            color_storage(d, k - 11)
        } else {
            uv_storage(d, k - 13)
        };
        match st {
            VectorStorage::NotPresent => true,
            VectorStorage::Index8 => can_read(s, q, 1),
            VectorStorage::Index16 => can_read(s, q, 2),
            VectorStorage::Direct => if k == 9 {
                scalars_ok(s, q, pos_components(d), pos_format(d), pos_divisor(d))
            } else if k == 10 {
                scalars_ok(s, q, norm_components(d), norm_format(d), VectorDivisor::Normalize)
            } else if k <= 12 {
                color_code(d, k - 11) <= 5 && can_read(s, q, color_stride(color_format_of(color_code(d, k - 11))) as int)
            } else {
                scalars_ok(
                    s,
                    q,
                    if uv_extended(d, k - 13) {
                        2int
                    } else {
                        1int
                    },
                    uv_format(d, k - 13),
                    uv_divisor(d, k - 13),
                )
            },
        }
    }
}

/// Whether `e` is the error that reading attribute `k` of a vertex at `q` of `s` under
/// `d` gives where it cannot be read: an invalid input for a format and divisor that do
/// not go together, a corruption error for an unknown color format, else the end of the
/// input.
pub open spec fn attr_error(s: Seq<u8>, q: int, d: VertexDeclaration, k: int, e: EditorError) -> bool {
    if k <= 8 {
        e is IoError
    } else {
        let st = if k == 9 {
            pos_storage(d)
        } else if k == 10 {
            norm_storage(d)
        } else if k <= 12 {
            color_storage(d, k - 11)
        } else {
            uv_storage(d, k - 13)
        };
        match st {
            VectorStorage::NotPresent => false,
            VectorStorage::Index8 => e is IoError,
            VectorStorage::Index16 => e is IoError,
            VectorStorage::Direct => if k == 9 {
                scalars_error(pos_format(d), pos_divisor(d), e)
            } else if k == 10 {
                scalars_error(norm_format(d), VectorDivisor::Normalize, e)
            } else if k <= 12 {
                direct_color_error(d, k - 11, e)
            } else {
                scalars_error(uv_format(d, k - 13), uv_divisor(d, k - 13), e)
            },
        }
    }
}

/// Whether `e` is the error that reading color `c` stored in a vertex under `d` gives
/// where it cannot be read: a corruption error for an unknown format, else the end of
/// the input.
pub open spec fn direct_color_error(d: VertexDeclaration, c: int, e: EditorError) -> bool {
    if color_code(d, c) > 5 {
        e is Corrupted
    } else {
        e is IoError
    }
}

/// A position stored in the vertex itself.
pub enum DirectPosition {
    Xy(Vec<Scalar>),
    Xyz(Vec<Scalar>),
}

/// The position of a vertex.
pub enum PositionData {
    NotPresent,
    Index8(u8),
    Index16(u16),
    Direct(DirectPosition),
}

/// Whether `v` is the position stored at `q` of `s` under `d`.
pub open spec fn position_is(s: Seq<u8>, q: int, d: VertexDeclaration, v: PositionData) -> bool {
    match pos_storage(d) {
        VectorStorage::NotPresent => v is NotPresent,
        VectorStorage::Index8 => v == PositionData::Index8(s[q]),
        VectorStorage::Index16 => v == PositionData::Index16(u16_be(s, q)),
        VectorStorage::Direct => v matches PositionData::Direct(p) && match p {
            DirectPosition::Xy(c) => pos_components(d) == 2 && c@ == scalars_at(
                s,
                q,
                2,
                pos_format(d),
                divisor_shift(pos_format(d), pos_divisor(d))->0,
            ),
            DirectPosition::Xyz(c) => pos_components(d) == 3 && c@ == scalars_at(
                s,
                q,
                3,
                pos_format(d),
                divisor_shift(pos_format(d), pos_divisor(d))->0,
            ),
        },
    }
}

impl DirectPosition {
    /// Reads a position stored in the vertex.
    pub fn deserialize(reader: &mut RefCursor, decl: &VertexDeclaration) -> (r: EditorResult<Self>)
        ensures
            final(reader).bytes() == old(reader).bytes(),
            ({
                let s = old(reader).bytes();
                let p = old(reader).pos();
                let d = *decl;
                match r {
                    Ok(v) => scalars_ok(s, p, pos_components(d), pos_format(d), pos_divisor(d))
                        && final(reader).pos() == p + pos_components(d) * scalar_size(pos_format(d)) && match v {
                        DirectPosition::Xy(c) => pos_components(d) == 2 && c@ == scalars_at(
                            s,
                            p,
                            2,
                            pos_format(d),
                            divisor_shift(pos_format(d), pos_divisor(d))->0,
                        ),
                        DirectPosition::Xyz(c) => pos_components(d) == 3 && c@ == scalars_at(
                            s,
                            p,
                            3,
                            pos_format(d),
                            divisor_shift(pos_format(d), pos_divisor(d))->0,
                        ),
                    },
                    Err(e) => !scalars_ok(s, p, pos_components(d), pos_format(d), pos_divisor(d)) && scalars_error(
                        pos_format(d),
                        pos_divisor(d),
                        e,
                    ),
                }
            }),
    {
        let format = decl.vat_a.pos_format();
        let divisor = VectorDivisor::Custom(decl.vat_a.pos_divisor());
        if decl.vat_a.pos_extended() {
            Ok(DirectPosition::Xyz(deserialize_vector(reader, 3, format, divisor)?))
        } else {
            Ok(DirectPosition::Xy(deserialize_vector(reader, 2, format, divisor)?))
        }
    }
}

impl PositionData {
    /// Reads the position of a vertex as `decl` declares it.
    pub fn deserialize(reader: &mut RefCursor, decl: &VertexDeclaration) -> (r: EditorResult<Self>)
        ensures
            final(reader).bytes() == old(reader).bytes(),
            ({
                let s = old(reader).bytes();
                let p = old(reader).pos();
                match r {
                    Ok(v) => attr_ok(s, p, *decl, 9) && position_is(s, p, *decl, v) && final(reader).pos() == p
                        + attr_size(*decl, 9),
                    Err(e) => !attr_ok(s, p, *decl, 9) && attr_error(s, p, *decl, 9, e),
                }
            }),
    {
        match decl.vcd_lo.pos_storage() {
            VectorStorage::NotPresent => Ok(PositionData::NotPresent),
            VectorStorage::Index8 => Ok(PositionData::Index8(reader.read_u8()?)),
            VectorStorage::Index16 => Ok(PositionData::Index16(reader.read_u16()?)),
            VectorStorage::Direct => Ok(PositionData::Direct(DirectPosition::deserialize(reader, decl)?)),
        }
    }
}

/// A normal stored in the vertex itself.
pub enum DirectNormal {
    /// Only the normal.
    Single(Vec<Scalar>),
    /// The normal, binormal and tangent.
    Triple(Vec<Scalar>),
}

/// The normal of a vertex.
pub enum NormalData {
    NotPresent,
    Index8(u8),
    Index16(u16),
    Direct(DirectNormal),
}

/// Whether `v` is the normal stored at `q` of `s` under `d`.
pub open spec fn normal_is(s: Seq<u8>, q: int, d: VertexDeclaration, v: NormalData) -> bool {
    match norm_storage(d) {
        VectorStorage::NotPresent => v is NotPresent,
        VectorStorage::Index8 => v == NormalData::Index8(s[q]),
        VectorStorage::Index16 => v == NormalData::Index16(u16_be(s, q)),
        VectorStorage::Direct => v matches NormalData::Direct(n) && match n {
            DirectNormal::Single(c) => norm_components(d) == 3 && c@ == scalars_at(
                s,
                q,
                3,
                norm_format(d),
                divisor_shift(norm_format(d), VectorDivisor::Normalize)->0,
            ),
            DirectNormal::Triple(c) => norm_components(d) == 9 && c@ == scalars_at(
                s,
                q,
                9,
                norm_format(d),
                divisor_shift(norm_format(d), VectorDivisor::Normalize)->0,
            ),
        },
    }
}

impl DirectNormal {
    /// Reads a normal stored in the vertex; its components span [-1, 1].
    pub fn deserialize(reader: &mut RefCursor, decl: &VertexDeclaration) -> (r: EditorResult<Self>)
        ensures
            final(reader).bytes() == old(reader).bytes(),
            ({
                let s = old(reader).bytes();
                let p = old(reader).pos();
                let d = *decl;
                match r {
                    Ok(v) => scalars_ok(s, p, norm_components(d), norm_format(d), VectorDivisor::Normalize)
                        && final(reader).pos() == p + norm_components(d) * scalar_size(norm_format(d))
                        && match v {
                        DirectNormal::Single(c) => norm_components(d) == 3 && c@ == scalars_at(
                            s,
                            p,
                            3,
                            norm_format(d),
                            divisor_shift(norm_format(d), VectorDivisor::Normalize)->0,
                        ),
                        DirectNormal::Triple(c) => norm_components(d) == 9 && c@ == scalars_at(
                            s,
                            p,
                            9,
                            norm_format(d),
                            divisor_shift(norm_format(d), VectorDivisor::Normalize)->0,
                        ),
                    },
                    Err(e) => !scalars_ok(s, p, norm_components(d), norm_format(d), VectorDivisor::Normalize)
                        && scalars_error(norm_format(d), VectorDivisor::Normalize, e),
                }
            }),
    {
        let format = VertexFormat::from(decl.vat_a.norm_format());
        if decl.vat_a.norm_extended() {
            Ok(DirectNormal::Triple(deserialize_vector(reader, 9, format, VectorDivisor::Normalize)?))
        } else {
            Ok(DirectNormal::Single(deserialize_vector(reader, 3, format, VectorDivisor::Normalize)?))
        }
    }
}

impl NormalData {
    /// Reads the normal of a vertex as `decl` declares it.
    pub fn deserialize(reader: &mut RefCursor, decl: &VertexDeclaration) -> (r: EditorResult<Self>)
        ensures
            final(reader).bytes() == old(reader).bytes(),
            ({
                let s = old(reader).bytes();
                let p = old(reader).pos();
                match r {
                    Ok(v) => attr_ok(s, p, *decl, 10) && normal_is(s, p, *decl, v) && final(reader).pos() == p
                        + attr_size(*decl, 10),
                    Err(e) => !attr_ok(s, p, *decl, 10) && attr_error(s, p, *decl, 10, e),
                }
            }),
    {
        match decl.vcd_lo.norm_storage() {
            VectorStorage::NotPresent => Ok(NormalData::NotPresent),
            VectorStorage::Index8 => Ok(NormalData::Index8(reader.read_u8()?)),
            VectorStorage::Index16 => Ok(NormalData::Index16(reader.read_u16()?)),
            VectorStorage::Direct => Ok(NormalData::Direct(DirectNormal::deserialize(reader, decl)?)),
        }
    }
}

/// A color stored in the vertex itself, as red, green, blue and alpha bytes.
#[derive(Debug, Copy, Clone, PartialEq, Eq)]
pub enum DirectColor {
    AlphaDisabled([u8; 4]),
    AlphaEnabled([u8; 4]),
}

/// A color of a vertex.
#[derive(Debug, Copy, Clone, PartialEq, Eq)]
pub enum ColorData {
    NotPresent,
    Index8(u8),
    Index16(u16),
    Direct(DirectColor),
}

/// Whether `v` is color `c` stored at `q` of `s` under `d`.
pub open spec fn color_is(s: Seq<u8>, q: int, d: VertexDeclaration, c: int, v: ColorData) -> bool {
    match color_storage(d, c) {
        VectorStorage::NotPresent => v is NotPresent,
        VectorStorage::Index8 => v == ColorData::Index8(s[q]),
        VectorStorage::Index16 => v == ColorData::Index16(u16_be(s, q)),
        VectorStorage::Direct => v matches ColorData::Direct(dc) && match dc {
            DirectColor::AlphaEnabled(x) => color_alpha(d, c) && x@ == color_at(
                s,
                q,
                color_format_of(color_code(d, c)),
            ),
            DirectColor::AlphaDisabled(x) => !color_alpha(d, c) && x@ == color_at(
                s,
                q,
                color_format_of(color_code(d, c)),
            ),
        },
    }
}

/// Where color `c` stored in a vertex can be read at `q` of `s` under `d`.
pub open spec fn direct_color_ok(s: Seq<u8>, q: int, d: VertexDeclaration, c: int) -> bool {
    color_code(d, c) <= 5 && can_read(s, q, color_stride(color_format_of(color_code(d, c))) as int)
}

/// Whether `v` is color `c` stored in a vertex at `q` of `s` under `d`.
pub open spec fn direct_color_is(s: Seq<u8>, q: int, d: VertexDeclaration, c: int, v: DirectColor) -> bool {
    let f = color_format_of(color_code(d, c));
    match v {
        DirectColor::AlphaEnabled(x) => color_alpha(d, c) && x@ == color_at(s, q, f),
        DirectColor::AlphaDisabled(x) => !color_alpha(d, c) && x@ == color_at(s, q, f),
    }
}

impl DirectColor {
    /// Reads color `c` (0 or 1) stored in the vertex.
    fn deserialize_col(reader: &mut RefCursor, decl: &VertexDeclaration, c: usize) -> (r: EditorResult<Self>)
        requires
            c <= 1,
        ensures
            final(reader).bytes() == old(reader).bytes(),
            ({
                let s = old(reader).bytes();
                let p = old(reader).pos();
                let d = *decl;
                let f = color_format_of(color_code(d, c as int));
                match r {
                    Ok(v) => color_code(d, c as int) <= 5 && can_read(s, p, color_stride(f) as int) && final(reader).pos()
                        == p + color_stride(f) && match v {
                        DirectColor::AlphaEnabled(x) => color_alpha(d, c as int) && x@ == color_at(s, p, f),
                        DirectColor::AlphaDisabled(x) => !color_alpha(d, c as int) && x@ == color_at(s, p, f),
                    },
                    Err(e) => !(color_code(d, c as int) <= 5 && can_read(s, p, color_stride(f) as int))
                        && direct_color_error(d, c as int, e),
                }
            }),
    {
        let (alpha, format) = if c == 0 {
            (decl.vat_a.col0_extended(), decl.vat_a.col0_format()?)
        } else {
            (decl.vat_a.col1_extended(), decl.vat_a.col1_format()?)
        };
        let color = deserialize_color(reader, format)?;
        if alpha {
            Ok(DirectColor::AlphaEnabled(color))
        } else {
            Ok(DirectColor::AlphaDisabled(color))
        }
    }

    /// Reads color 0 stored in the vertex.
    pub fn deserialize_col0(reader: &mut RefCursor, decl: &VertexDeclaration) -> (r: EditorResult<Self>)
        ensures
            final(reader).bytes() == old(reader).bytes(),
            ({
                let s = old(reader).bytes();
                let p = old(reader).pos();
                match r {
                    Ok(v) => direct_color_ok(s, p, *decl, 0) && direct_color_is(s, p, *decl, 0, v) && final(reader).pos()
                        == p + color_stride(color_format_of(color_code(*decl, 0))),
                    Err(e) => !direct_color_ok(s, p, *decl, 0) && direct_color_error(*decl, 0, e),
                }
            }),
    {
        Self::deserialize_col(reader, decl, 0)
    }

    /// Reads color 1 stored in the vertex.
    pub fn deserialize_col1(reader: &mut RefCursor, decl: &VertexDeclaration) -> (r: EditorResult<Self>)
        ensures
            final(reader).bytes() == old(reader).bytes(),
            ({
                let s = old(reader).bytes();
                let p = old(reader).pos();
                match r {
                    Ok(v) => direct_color_ok(s, p, *decl, 1) && direct_color_is(s, p, *decl, 1, v) && final(reader).pos()
                        == p + color_stride(color_format_of(color_code(*decl, 1))),
                    Err(e) => !direct_color_ok(s, p, *decl, 1) && direct_color_error(*decl, 1, e),
                }
            }),
    {
        Self::deserialize_col(reader, decl, 1)
    }
}

impl ColorData {
    /// Reads color `c` (0 or 1) of a vertex as `decl` declares it.
    fn deserialize_col(reader: &mut RefCursor, decl: &VertexDeclaration, c: usize) -> (r: EditorResult<Self>)
        requires
            c <= 1,
        ensures
            final(reader).bytes() == old(reader).bytes(),
            ({
                let s = old(reader).bytes();
                let p = old(reader).pos();
                match r {
                    Ok(v) => attr_ok(s, p, *decl, 11 + c) && color_is(s, p, *decl, c as int, v) && final(reader).pos()
                        == p + attr_size(*decl, 11 + c),
                    Err(e) => !attr_ok(s, p, *decl, 11 + c) && attr_error(s, p, *decl, 11 + c, e),
                }
            }),
    {
        let storage = if c == 0 {
            decl.vcd_lo.col0_storage()
        } else {
            decl.vcd_lo.col1_storage()
        };
        match storage {
            VectorStorage::NotPresent => Ok(ColorData::NotPresent),
            VectorStorage::Index8 => Ok(ColorData::Index8(reader.read_u8()?)),
            VectorStorage::Index16 => Ok(ColorData::Index16(reader.read_u16()?)),
            VectorStorage::Direct => Ok(ColorData::Direct(DirectColor::deserialize_col(reader, decl, c)?)),
        }
    }

    /// Reads color 0 of a vertex as `decl` declares it.
    pub fn deserialize_col0(reader: &mut RefCursor, decl: &VertexDeclaration) -> (r: EditorResult<Self>)
        ensures
            final(reader).bytes() == old(reader).bytes(),
            ({
                let s = old(reader).bytes();
                let p = old(reader).pos();
                match r {
                    Ok(v) => attr_ok(s, p, *decl, 11) && color_is(s, p, *decl, 0, v) && final(reader).pos() == p
                        + attr_size(*decl, 11),
                    Err(e) => !attr_ok(s, p, *decl, 11) && attr_error(s, p, *decl, 11, e),
                }
            }),
    {
        Self::deserialize_col(reader, decl, 0)
    }

    /// Reads color 1 of a vertex as `decl` declares it.
    pub fn deserialize_col1(reader: &mut RefCursor, decl: &VertexDeclaration) -> (r: EditorResult<Self>)
        ensures
            final(reader).bytes() == old(reader).bytes(),
            ({
                let s = old(reader).bytes();
                let p = old(reader).pos();
                match r {
                    Ok(v) => attr_ok(s, p, *decl, 12) && color_is(s, p, *decl, 1, v) && final(reader).pos() == p
                        + attr_size(*decl, 12),
                    Err(e) => !attr_ok(s, p, *decl, 12) && attr_error(s, p, *decl, 12, e),
                }
            }),
    {
        Self::deserialize_col(reader, decl, 1)
    }
}

/// Texture coordinates stored in the vertex itself.
pub enum DirectUv {
    S(Scalar),
    St(Vec<Scalar>),
}

/// A texture coordinate of a vertex.
pub enum UvData {
    NotPresent,
    Index8(u8),
    Index16(u16),
    Direct(DirectUv),
}

/// Whether `v` is texture coordinate `i` stored at `q` of `s` under `d`.
pub open spec fn uv_is(s: Seq<u8>, q: int, d: VertexDeclaration, i: int, v: UvData) -> bool {
    let f = uv_format(d, i);
    let shift = divisor_shift(f, uv_divisor(d, i))->0;
    match uv_storage(d, i) {
        VectorStorage::NotPresent => v is NotPresent,
        VectorStorage::Index8 => v == UvData::Index8(s[q]),
        VectorStorage::Index16 => v == UvData::Index16(u16_be(s, q)),
        VectorStorage::Direct => v matches UvData::Direct(u) && match u {
            DirectUv::S(x) => !uv_extended(d, i) && x == scalar_at(s, q, f, shift),
            DirectUv::St(c) => uv_extended(d, i) && c@ == scalars_at(s, q, 2, f, shift),
        },
    }
}

impl DirectUv {
    /// Reads texture coordinate `i` (0 to 7) stored in the vertex.
    pub fn deserialize_uv(reader: &mut RefCursor, decl: &VertexDeclaration, i: usize) -> (r: EditorResult<Self>)
        requires
            i < 8,
        ensures
            final(reader).bytes() == old(reader).bytes(),
            ({
                let s = old(reader).bytes();
                let p = old(reader).pos();
                let d = *decl;
                let n = if uv_extended(d, i as int) {
                    2int
                } else {
                    1int
                };
                let f = uv_format(d, i as int);
                let shift = divisor_shift(f, uv_divisor(d, i as int))->0;
                match r {
                    Ok(v) => scalars_ok(s, p, n, f, uv_divisor(d, i as int)) && final(reader).pos() == p + n
                        * scalar_size(f) && match v {
                        DirectUv::S(x) => !uv_extended(d, i as int) && x == scalar_at(s, p, f, shift),
                        DirectUv::St(c) => uv_extended(d, i as int) && c@ == scalars_at(s, p, 2, f, shift),
                    },
                    Err(e) => !scalars_ok(s, p, n, f, uv_divisor(d, i as int)) && scalars_error(f, uv_divisor(d, i as int), e),
                }
            }),
    {
        let a = &decl.vat_a;
        let b = &decl.vat_b;
        let c = &decl.vat_c;
        let (extended, format, divisor) = if i == 0 {
            (a.uv0_extended(), a.uv0_format(), a.uv0_divisor())
        } else if i == 1 {
            (b.uv1_extended(), b.uv1_format(), b.uv1_divisor())
        } else if i == 2 {
            (b.uv2_extended(), b.uv2_format(), b.uv2_divisor())
        } else if i == 3 {
            (b.uv3_extended(), b.uv3_format(), b.uv3_divisor())
        } else if i == 4 {
            (b.uv4_extended(), b.uv4_format(), c.uv4_divisor())
        } else if i == 5 {
            (c.uv5_extended(), c.uv5_format(), c.uv5_divisor())
        } else if i == 6 {
            (c.uv6_extended(), c.uv6_format(), c.uv6_divisor())
        } else {
            (c.uv7_extended(), c.uv7_format(), c.uv7_divisor())
        };
        assert(format == uv_format(*decl, i as int));
        assert(VectorDivisor::Custom(divisor) == uv_divisor(*decl, i as int));
        if extended {
            Ok(DirectUv::St(deserialize_vector(reader, 2, format, VectorDivisor::Custom(divisor))?))
        } else {
            let x = deserialize_scalar(reader, format, VectorDivisor::Custom(divisor))?;
            proof {
                assert(1 * scalar_size(format) == scalar_size(format));
            }
            Ok(DirectUv::S(x))
        }
    }
}

impl UvData {
    /// Reads texture coordinate `i` (0 to 7) of a vertex as `decl` declares it.
    pub fn deserialize_uv(reader: &mut RefCursor, decl: &VertexDeclaration, i: usize) -> (r: EditorResult<Self>)
        requires
            i < 8,
        ensures
            final(reader).bytes() == old(reader).bytes(),
            ({
                let s = old(reader).bytes();
                let p = old(reader).pos();
                match r {
                    Ok(v) => attr_ok(s, p, *decl, 13 + i) && uv_is(s, p, *decl, i as int, v) && final(reader).pos()
                        == p + attr_size(*decl, 13 + i),
                    Err(e) => !attr_ok(s, p, *decl, 13 + i) && attr_error(s, p, *decl, 13 + i, e),
                }
            }),
    {
        let storage = VectorStorage::from_bits(crate::format::bits::get_field(decl.vcd_hi.into_bits(), (2 * i) as u32, 0x3));
        match storage {
            VectorStorage::NotPresent => Ok(UvData::NotPresent),
            VectorStorage::Index8 => Ok(UvData::Index8(reader.read_u8()?)),
            VectorStorage::Index16 => Ok(UvData::Index16(reader.read_u16()?)),
            VectorStorage::Direct => Ok(UvData::Direct(DirectUv::deserialize_uv(reader, decl, i)?)),
        }
    }
}

/// The index at `q` of `s` where `present`, else nothing.
pub open spec fn flagged_index(s: Seq<u8>, q: int, present: bool) -> Option<u8> {
    if present {
        Some(s[q])
    } else {
        None
    }
}

/// Reads a one-byte matrix index where `present`.
fn read_flagged(reader: &mut RefCursor, present: bool) -> (r: EditorResult<Option<u8>>)
    ensures
        final(reader).bytes() == old(reader).bytes(),
        ({
            let s = old(reader).bytes();
            let p = old(reader).pos();
            let n = if present {
                1int
            } else {
                0int
            };
            match r {
                Ok(v) => fits(s, p, n) && v == flagged_index(s, p, present) && final(reader).pos() == p + n,
                Err(e) => !fits(s, p, n) && e is IoError,
            }
        }),
{
    if present {
        Ok(Some(reader.read_u8()?))
    } else {
        Ok(None)
    }
}

/// A vertex of a draw command: each attribute that the vertex declaration declares.
pub struct OpVertex {
    pub pm: Option<u8>,
    pub tms: [Option<u8>; 8],
    pub position: PositionData,
    pub normals: NormalData,
    pub color0: ColorData,
    pub color1: ColorData,
    pub uvs: [UvData; 8],
}

/// Where a vertex can be read at `p` of `s` under `d`: each of its attributes at its offset.
pub open spec fn op_vertex_ok(s: Seq<u8>, p: int, d: VertexDeclaration) -> bool {
    forall|k: nat| k < 21 ==> #[trigger] attr_ok(s, p + attr_offset(d, k), d, k as int)
}

/// Whether `e` is the error that reading a vertex at `p` of `s` under `d` gives where
/// it cannot be read: that of its first attribute that cannot be read.
pub open spec fn op_vertex_error(s: Seq<u8>, p: int, d: VertexDeclaration, e: EditorError) -> bool {
    exists|k: nat|
        k < 21 && (forall|j: nat| j < k ==> #[trigger] attr_ok(s, p + attr_offset(d, j), d, j as int))
            && !#[trigger] attr_ok(s, p + attr_offset(d, k), d, k as int) && attr_error(
            s,
            p + attr_offset(d, k),
            d,
            k as int,
            e,
        )
}

/// Whether `v` is the vertex stored at `p` of `s` under `d`.
pub open spec fn op_vertex_is(s: Seq<u8>, p: int, d: VertexDeclaration, v: OpVertex) -> bool {
    &&& v.pm == flagged_index(s, p, bit(d.vcd_lo.bits(), 0))
    &&& forall|i: int|
        0 <= i < 8 ==> #[trigger] v.tms@[i] == flagged_index(
            s,
            p + attr_offset(d, (i + 1) as nat),
            bit(d.vcd_lo.bits(), (i + 1) as u32),
        )
    &&& position_is(s, p + attr_offset(d, 9), d, v.position)
    &&& normal_is(s, p + attr_offset(d, 10), d, v.normals)
    &&& color_is(s, p + attr_offset(d, 11), d, 0, v.color0)
    &&& color_is(s, p + attr_offset(d, 12), d, 1, v.color1)
    &&& forall|i: int| 0 <= i < 8 ==> uv_is(s, p + attr_offset(d, (13 + i) as nat), d, i, #[trigger] v.uvs@[i])
}

/// Where each field of the value lies: the bytes it is read from.
pub proof fn lemma_op_vertex_layout(s: Seq<u8>, p: int, d: VertexDeclaration, v: OpVertex)
    requires
        op_vertex_is(s, p, d, v),
    ensures
        (v.pm == flagged_index(s, p, bit(d.vcd_lo.bits(), 0))),
        (forall|i: int| 0 <= i < 8 ==> #[trigger] v.tms@[i] == flagged_index( s, p + attr_offset(d, (i + 1) as nat), bit(d.vcd_lo.bits(), (i + 1) as u32), )),
        (position_is(s, p + attr_offset(d, 9), d, v.position)),
        (normal_is(s, p + attr_offset(d, 10), d, v.normals)),
        (color_is(s, p + attr_offset(d, 11), d, 0, v.color0)),
        (color_is(s, p + attr_offset(d, 12), d, 1, v.color1)),
        (forall|i: int| 0 <= i < 8 ==> uv_is(s, p + attr_offset(d, (13 + i) as nat), d, i, #[trigger] v.uvs@[i])),
{
}

/// Reads the texture matrix indices that `lo` declares; the vertex starts at `p`.
fn read_tms(reader: &mut RefCursor, decl: &VertexDeclaration, Ghost(p): Ghost<int>) -> (r: EditorResult<[Option<u8>; 8]>)
    requires
        old(reader).pos() == p + attr_offset(*decl, 1),
    ensures
        final(reader).bytes() == old(reader).bytes(),
        ({
            let s = old(reader).bytes();
            let d = *decl;
            match r {
                Ok(t) => (forall|i: int| 0 <= i < 8 ==> #[trigger] attr_ok(s, p + attr_offset(d, (i + 1) as nat), d, i + 1))
                    && (forall|i: int|
                    0 <= i < 8 ==> #[trigger] t@[i] == flagged_index(
                        s,
                        p + attr_offset(d, (i + 1) as nat),
                        bit(d.vcd_lo.bits(), (i + 1) as u32),
                    )) && final(reader).pos() == p + attr_offset(d, 9),
                Err(e) => exists|i: int|
                    0 <= i < 8 && (forall|j: int|
                        0 <= j < i ==> #[trigger] attr_ok(s, p + attr_offset(d, (j + 1) as nat), d, j + 1))
                        && !#[trigger] attr_ok(s, p + attr_offset(d, (i + 1) as nat), d, i + 1) && attr_error(
                        s,
                        p + attr_offset(d, (i + 1) as nat),
                        d,
                        i + 1,
                        e,
                    ),
            }
        }),
{
    let ghost s = reader.bytes();
    let ghost d = *decl;
    let mut t: Vec<Option<u8>> = Vec::new();
    let mut i: usize = 0;
    while i < 8
        invariant
            reader.bytes() == s,
            s == old(reader).bytes(),
            d == *decl,
            i <= 8,
            t@.len() == i,
            reader.pos() == p + attr_offset(d, (i + 1) as nat),
            forall|j: int| 0 <= j < i ==> #[trigger] attr_ok(s, p + attr_offset(d, (j + 1) as nat), d, j + 1),
            forall|j: int|
                0 <= j < i ==> #[trigger] t@[j] == flagged_index(
                    s,
                    p + attr_offset(d, (j + 1) as nat),
                    bit(d.vcd_lo.bits(), (j + 1) as u32),
                ),
        decreases 8 - i,
    {
        let present = crate::format::bits::get_bit(decl.vcd_lo.into_bits(), (i + 1) as u32);
        let v = match read_flagged(reader, present) {
            Ok(v) => v,
            Err(e) => {
                assert(!attr_ok(s, p + attr_offset(d, (i + 1) as nat), d, i + 1));
                return Err(e);
            },
        };
        t.push(v);
        i = i + 1;
    }
    Ok([t[0], t[1], t[2], t[3], t[4], t[5], t[6], t[7]])
}

/// Reads the texture coordinates that `decl` declares; the vertex starts at `p`.
fn read_uvs(reader: &mut RefCursor, decl: &VertexDeclaration, Ghost(p): Ghost<int>) -> (r: EditorResult<[UvData; 8]>)
    requires
        old(reader).pos() == p + attr_offset(*decl, 13),
    ensures
        final(reader).bytes() == old(reader).bytes(),
        ({
            let s = old(reader).bytes();
            let d = *decl;
            match r {
                Ok(u) => (forall|i: int| 0 <= i < 8 ==> #[trigger] attr_ok(s, p + attr_offset(d, (13 + i) as nat), d, 13 + i))
                    && (forall|i: int| 0 <= i < 8 ==> uv_is(s, p + attr_offset(d, (13 + i) as nat), d, i, #[trigger] u@[i]))
                    && final(reader).pos() == p + attr_offset(d, 21),
                Err(e) => exists|i: int|
                    0 <= i < 8 && (forall|j: int|
                        0 <= j < i ==> #[trigger] attr_ok(s, p + attr_offset(d, (13 + j) as nat), d, 13 + j))
                        && !#[trigger] attr_ok(s, p + attr_offset(d, (13 + i) as nat), d, 13 + i) && attr_error(
                        s,
                        p + attr_offset(d, (13 + i) as nat),
                        d,
                        13 + i,
                        e,
                    ),
            }
        }),
{
    let ghost s = reader.bytes();
    let ghost d = *decl;
    let mut u: Vec<UvData> = Vec::new();
    let mut i: usize = 0;
    while i < 8
        invariant
            reader.bytes() == s,
            s == old(reader).bytes(),
            d == *decl,
            i <= 8,
            u@.len() == i,
            reader.pos() == p + attr_offset(d, (13 + i) as nat),
            forall|j: int| 0 <= j < i ==> #[trigger] attr_ok(s, p + attr_offset(d, (13 + j) as nat), d, 13 + j),
            forall|j: int| 0 <= j < i ==> uv_is(s, p + attr_offset(d, (13 + j) as nat), d, j, #[trigger] u@[j]),
        decreases 8 - i,
    {
        let v = match UvData::deserialize_uv(reader, decl, i) {
            Ok(v) => v,
            Err(e) => {
                assert(!attr_ok(s, p + attr_offset(d, (13 + i) as nat), d, 13 + i));
                return Err(e);
            },
        };
        u.push(v);
        i = i + 1;
    }
    let ghost full = u@;
    let u7 = u.pop().unwrap();
    let u6 = u.pop().unwrap();
    let u5 = u.pop().unwrap();
    let u4 = u.pop().unwrap();
    let u3 = u.pop().unwrap();
    let u2 = u.pop().unwrap();
    let u1 = u.pop().unwrap();
    let u0 = u.pop().unwrap();
    let a = [u0, u1, u2, u3, u4, u5, u6, u7];
    assert(a@ =~= full);
    Ok(a)
}

impl OpVertex {
    /// Reads a vertex as `decl` declares it.
    pub fn deserialize(reader: &mut RefCursor, decl: &VertexDeclaration) -> (r: EditorResult<Self>)
        ensures
            final(reader).bytes() == old(reader).bytes(),
            ({
                let s = old(reader).bytes();
                let p = old(reader).pos();
                match r {
                    Ok(v) => op_vertex_ok(s, p, *decl) && op_vertex_is(s, p, *decl, v) && final(reader).pos() == p
                        + vertex_size(*decl),
                    Err(e) => !op_vertex_ok(s, p, *decl) && op_vertex_error(s, p, *decl, e),
                }
            }),
    {
        let ghost s = reader.bytes();
        let ghost p = reader.pos();
        let ghost d = *decl;
        assert(attr_offset(d, 0) == 0);
        assert(!attr_ok(s, p + attr_offset(d, 0), d, 0) ==> !op_vertex_ok(s, p, d));
        let pm = match read_flagged(reader, decl.vcd_lo.pm()) {
            Ok(v) => v,
            Err(e) => {
                assert(!attr_ok(s, p + attr_offset(d, 0), d, 0) && attr_error(s, p + attr_offset(d, 0), d, 0, e));
                return Err(e);
            },
        };
        assert(attr_ok(s, p + attr_offset(d, 0), d, 0));
        assert(reader.pos() == p + attr_offset(d, 1));
        let tms = match read_tms(reader, decl, Ghost(p)) {
            Ok(t) => t,
            Err(e) => {
                proof {
                    let i = choose|i: int|
                        0 <= i < 8 && (forall|j: int|
                            0 <= j < i ==> #[trigger] attr_ok(s, p + attr_offset(d, (j + 1) as nat), d, j + 1))
                            && !#[trigger] attr_ok(s, p + attr_offset(d, (i + 1) as nat), d, i + 1) && attr_error(
                            s,
                            p + attr_offset(d, (i + 1) as nat),
                            d,
                            i + 1,
                            e,
                        );
                    assert forall|j: nat| j < (i + 1) as nat implies #[trigger] attr_ok(s, p + attr_offset(d, j), d, j as int) by {
                        if j >= 1 {
                            assert(attr_ok(s, p + attr_offset(d, ((j - 1) + 1) as nat), d, (j - 1) + 1));
                        }
                    }
                    assert(!attr_ok(s, p + attr_offset(d, (i + 1) as nat), d, ((i + 1) as nat) as int));
                }
                return Err(e);
            },
        };
        proof {
            assert forall|j: nat| j < 9 implies #[trigger] attr_ok(s, p + attr_offset(d, j), d, j as int) by {
                if j >= 1 {
                    assert(attr_ok(s, p + attr_offset(d, ((j - 1) + 1) as nat), d, (j - 1) + 1));
                }
            }
        }
        assert(!attr_ok(s, p + attr_offset(d, 9), d, 9) ==> !op_vertex_ok(s, p, d));
        let position = match PositionData::deserialize(reader, decl) {
            Ok(v) => v,
            Err(e) => {
                assert(!attr_ok(s, p + attr_offset(d, 9), d, 9nat as int));
                return Err(e);
            },
        };
        assert(reader.pos() == p + attr_offset(d, 10));
        assert(attr_ok(s, p + attr_offset(d, 9), d, 9nat as int));
        assert(!attr_ok(s, p + attr_offset(d, 10), d, 10) ==> !op_vertex_ok(s, p, d));
        let normals = match NormalData::deserialize(reader, decl) {
            Ok(v) => v,
            Err(e) => {
                assert(!attr_ok(s, p + attr_offset(d, 10), d, 10nat as int));
                return Err(e);
            },
        };
        assert(reader.pos() == p + attr_offset(d, 11));
        assert(attr_ok(s, p + attr_offset(d, 10), d, 10nat as int));
        assert(!attr_ok(s, p + attr_offset(d, 11), d, 11) ==> !op_vertex_ok(s, p, d));
        let color0 = match ColorData::deserialize_col0(reader, decl) {
            Ok(v) => v,
            Err(e) => {
                assert(!attr_ok(s, p + attr_offset(d, 11), d, 11nat as int));
                return Err(e);
            },
        };
        assert(reader.pos() == p + attr_offset(d, 12));
        assert(attr_ok(s, p + attr_offset(d, 11), d, 11nat as int));
        assert(!attr_ok(s, p + attr_offset(d, 12), d, 12) ==> !op_vertex_ok(s, p, d));
        let color1 = match ColorData::deserialize_col1(reader, decl) {
            Ok(v) => v,
            Err(e) => {
                assert(!attr_ok(s, p + attr_offset(d, 12), d, 12nat as int));
                return Err(e);
            },
        };
        assert(reader.pos() == p + attr_offset(d, 13));
        assert(attr_ok(s, p + attr_offset(d, 12), d, 12nat as int));
        let uvs = match read_uvs(reader, decl, Ghost(p)) {
            Ok(u) => u,
            Err(e) => {
                proof {
                    let i = choose|i: int|
                        0 <= i < 8 && (forall|j: int|
                            0 <= j < i ==> #[trigger] attr_ok(s, p + attr_offset(d, (13 + j) as nat), d, 13 + j))
                            && !#[trigger] attr_ok(s, p + attr_offset(d, (13 + i) as nat), d, 13 + i) && attr_error(
                            s,
                            p + attr_offset(d, (13 + i) as nat),
                            d,
                            13 + i,
                            e,
                        );
                    assert forall|j: nat| j < (13 + i) as nat implies #[trigger] attr_ok(s, p + attr_offset(d, j), d, j as int) by {
                        if j >= 13 {
                            assert(attr_ok(s, p + attr_offset(d, (13 + (j - 13)) as nat), d, 13 + (j - 13)));
                        }
                    }
                    assert(!attr_ok(s, p + attr_offset(d, (13 + i) as nat), d, ((13 + i) as nat) as int));
                }
                return Err(e);
            },
        };
        let v = OpVertex { pm, tms, position, normals, color0, color1, uvs };
        proof {
            assert forall|k: nat| k < 21 implies #[trigger] attr_ok(s, p + attr_offset(d, k), d, k as int) by {
                if 1 <= k <= 8 {
                    assert(attr_ok(s, p + attr_offset(d, ((k - 1) + 1) as nat), d, (k - 1) + 1));
                } else if k >= 13 {
                    assert(attr_ok(s, p + attr_offset(d, (13 + (k - 13)) as nat), d, 13 + (k - 13)));
                }
            }
        }
        Ok(v)
    }
}

/// The vertices of a draw command (quads, triangles, strips, fans, lines or points).
pub struct DrawOpCode {
    pub vertices: Vec<OpVertex>,
}

/// Where a draw command can be read at `p` of `s` under `d`: its vertex count and that
/// many vertices.
pub open spec fn draw_ok(s: Seq<u8>, p: int, d: VertexDeclaration) -> bool {
    &&& can_read(s, p, 2)
    &&& forall|k: int| 0 <= k < u16_be(s, p) ==> #[trigger] op_vertex_ok(s, p + 2 + k * vertex_size(d), d)
}

/// Whether `e` is the error that reading a draw command at `p` of `s` under `d` gives
/// where it cannot be read: the end of the input within its vertex count, else that of
/// its first vertex that cannot be read.
pub open spec fn draw_error(s: Seq<u8>, p: int, d: VertexDeclaration, e: EditorError) -> bool {
    if !can_read(s, p, 2) {
        e is IoError
    } else {
        exists|k: int|
            0 <= k < u16_be(s, p) && (forall|j: int| 0 <= j < k ==> #[trigger] op_vertex_ok(s, p + 2 + j * vertex_size(d), d))
                && !#[trigger] op_vertex_ok(s, p + 2 + k * vertex_size(d), d) && op_vertex_error(
                s,
                p + 2 + k * vertex_size(d),
                d,
                e,
            )
    }
}

/// Whether `c` is the draw command stored at `p` of `s` under `d`.
pub open spec fn draw_is(s: Seq<u8>, p: int, d: VertexDeclaration, c: DrawOpCode) -> bool {
    &&& c.vertices@.len() == u16_be(s, p)
    &&& forall|k: int| 0 <= k < u16_be(s, p) ==> op_vertex_is(s, p + 2 + k * vertex_size(d), d, #[trigger] c.vertices@[k])
}

/// Where each field of the value lies: the bytes it is read from.
pub proof fn lemma_draw_layout(s: Seq<u8>, p: int, d: VertexDeclaration, c: DrawOpCode)
    requires
        draw_is(s, p, d, c),
    ensures
        (c.vertices@.len() == u16_be(s, p)),
        (forall|k: int| 0 <= k < u16_be(s, p) ==> op_vertex_is(s, p + 2 + k * vertex_size(d), d, #[trigger] c.vertices@[k])),
{
}

impl DrawOpCode {
    /// Reads a draw command, decoding its vertices as `cp_opcodes` declares them.
    pub fn deserialize(reader: &mut RefCursor, cp_opcodes: &VertexDeclaration) -> (r: EditorResult<Self>)
        ensures
            final(reader).bytes() == old(reader).bytes(),
            ({
                let s = old(reader).bytes();
                let p = old(reader).pos();
                match r {
                    Ok(c) => draw_ok(s, p, *cp_opcodes) && draw_is(s, p, *cp_opcodes, c) && final(reader).pos() == p
                        + 2 + u16_be(s, p) * vertex_size(*cp_opcodes),
                    Err(e) => !draw_ok(s, p, *cp_opcodes) && draw_error(s, p, *cp_opcodes, e),
                }
            }),
    {
        let ghost s = reader.bytes();
        let ghost p = reader.pos();
        let ghost d = *cp_opcodes;
        let ghost vs = vertex_size(d);
        let vertex_count = reader.read_u16()?;
        let mut vertices: Vec<OpVertex> = Vec::new();
        let mut k: u16 = 0;
        while k < vertex_count
            invariant
                reader.bytes() == s,
                s == old(reader).bytes(),
                p == old(reader).pos(),
                d == *cp_opcodes,
                vs == vertex_size(d),
                can_read(s, p, 2),
                vertex_count == u16_be(s, p),
                k <= vertex_count,
                reader.pos() == p + 2 + k * vs,
                vertices@.len() == k,
                forall|j: int| 0 <= j < k ==> #[trigger] op_vertex_ok(s, p + 2 + j * vs, d),
                forall|j: int| 0 <= j < k ==> op_vertex_is(s, p + 2 + j * vs, d, #[trigger] vertices@[j]),
            decreases vertex_count - k,
        {
            proof {
                assert((k + 1) * vs == k * vs + vs) by (nonlinear_arith);
            }
            let v = match OpVertex::deserialize(reader, cp_opcodes) {
                Ok(v) => v,
                Err(e) => {
                    assert(!op_vertex_ok(s, p + 2 + k * vs, d));
                    assert(op_vertex_error(s, p + 2 + k * vs, d, e));
                    return Err(e);
                },
            };
            vertices.push(v);
            k = k + 1;
        }
        Ok(DrawOpCode { vertices })
    }
}

} // verus!
