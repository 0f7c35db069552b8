//! GX bytecode: the command stream of the Wii's graphics processor that polygons and
//! TEVs embed.
pub mod call;
pub mod draw;
pub mod load_bp;
pub mod load_cp;
pub mod load_indexed;
pub mod load_xf;

use vstd::prelude::*;

use crate::error::{corrupted, reason_with_value, EditorError, EditorResult};
use crate::format::encoding::Deserialize;
use crate::format::mdl0::gx::call::CallDisplayList;
use crate::format::mdl0::gx::draw::{draw_error, draw_is, draw_ok, lemma_attr_offset_nonneg, vertex_size, DrawOpCode};
use crate::format::mdl0::gx::load_bp::{bp_error, load_bp_of, LoadBpOpCode};
use crate::format::mdl0::gx::load_cp::{load_cp_of, LoadCpOpCode};
use crate::format::mdl0::gx::load_indexed::IndexedLoad;
use crate::format::mdl0::gx::load_xf::{load_xf_error, load_xf_is, load_xf_ok, LoadXfOpCode};
use crate::format::mdl0::polygons::VertexDeclaration;
use crate::shared::util::{can_read, u16_be, u24_be, u32_be, RefCursor};

verus! {

/// The opcodes of GX bytecode.
#[derive(Debug, Copy, Clone, PartialEq, Eq, Structural)]
pub enum GxOpCodeId {
    /// No-op.
    Nop,
    /// Load CP (command processor) register.
    LoadCp,
    /// Load XF (transform unit) register.
    LoadXf,
    /// Load indexed 3x3 position matrix.
    LoadIndexedPositionMatrix,
    /// Load indexed 3x3 normal matrix.
    LoadIndexedNormalMatrix,
    /// Load indexed texture matrix.
    LoadIndexedTextureMatrix,
    /// Load indexed light object.
    LoadIndexedLightObject,
    /// Call display list.
    Call,
    /// Unknown opcode.
    Unknown,
    /// Invalidate vertex cache.
    InvalidateVertexCache,
    /// Load BP (blitting processor) register.
    LoadBp,
    DrawQuads,
    DrawTriangles,
    DrawTriangleStrip,
    DrawTriangleFan,
    DrawLines,
    DrawLineStrip,
    DrawPoints,
}

/// Whether `b` is the code of a draw opcode.
pub open spec fn is_draw_code(b: u8) -> bool {
    b == 0x80 || b == 0x90 || b == 0x98 || b == 0xa0 || b == 0xa8 || b == 0xb0 || b == 0xb8
}

/// Whether `b` is the code of an opcode.
pub open spec fn is_opcode(b: u8) -> bool {
    b == 0x00 || b == 0x08 || b == 0x10 || b == 0x20 || b == 0x28 || b == 0x30 || b == 0x38 || b == 0x40
        || b == 0x44 || b == 0x48 || b == 0x61 || is_draw_code(b)
}

/// The opcode with code `b`, where `b` is one.
pub open spec fn gx_opcode_of(b: u8) -> GxOpCodeId {
    if b == 0x00 {
        GxOpCodeId::Nop
    } else if b == 0x08 {
        GxOpCodeId::LoadCp
    } else if b == 0x10 {
        GxOpCodeId::LoadXf
    } else if b == 0x20 {
        GxOpCodeId::LoadIndexedPositionMatrix
    } else if b == 0x28 {
        GxOpCodeId::LoadIndexedNormalMatrix
    } else if b == 0x30 {
        GxOpCodeId::LoadIndexedTextureMatrix
    } else if b == 0x38 {
        GxOpCodeId::LoadIndexedLightObject
    } else if b == 0x40 {
        GxOpCodeId::Call
    } else if b == 0x44 {
        GxOpCodeId::Unknown
    } else if b == 0x48 {
        GxOpCodeId::InvalidateVertexCache
    } else if b == 0x61 {
        GxOpCodeId::LoadBp
    } else if b == 0x80 {
        GxOpCodeId::DrawQuads
    } else if b == 0x90 {
        GxOpCodeId::DrawTriangles
    } else if b == 0x98 {
        GxOpCodeId::DrawTriangleStrip
    } else if b == 0xa0 {
        GxOpCodeId::DrawTriangleFan
    } else if b == 0xa8 {
        GxOpCodeId::DrawLines
    } else if b == 0xb0 {
        GxOpCodeId::DrawLineStrip
    } else {
        GxOpCodeId::DrawPoints
    }
}

/// The codes that the file format assigns: each code stated here names the value
/// beside it, and every code not listed gives the value of the last line.
pub proof fn lemma_gx_opcode_codes()
    ensures
        gx_opcode_of(0x00) == GxOpCodeId::Nop,
        gx_opcode_of(0x08) == GxOpCodeId::LoadCp,
        gx_opcode_of(0x10) == GxOpCodeId::LoadXf,
        gx_opcode_of(0x20) == GxOpCodeId::LoadIndexedPositionMatrix,
        gx_opcode_of(0x28) == GxOpCodeId::LoadIndexedNormalMatrix,
        gx_opcode_of(0x30) == GxOpCodeId::LoadIndexedTextureMatrix,
        gx_opcode_of(0x38) == GxOpCodeId::LoadIndexedLightObject,
        gx_opcode_of(0x40) == GxOpCodeId::Call,
        gx_opcode_of(0x44) == GxOpCodeId::Unknown,
        gx_opcode_of(0x48) == GxOpCodeId::InvalidateVertexCache,
        gx_opcode_of(0x61) == GxOpCodeId::LoadBp,
        gx_opcode_of(0x80) == GxOpCodeId::DrawQuads,
        gx_opcode_of(0x90) == GxOpCodeId::DrawTriangles,
        gx_opcode_of(0x98) == GxOpCodeId::DrawTriangleStrip,
        gx_opcode_of(0xa0) == GxOpCodeId::DrawTriangleFan,
        gx_opcode_of(0xa8) == GxOpCodeId::DrawLines,
        gx_opcode_of(0xb0) == GxOpCodeId::DrawLineStrip,
        gx_opcode_of(177) == GxOpCodeId::DrawPoints,
        forall|b: u8| !(b == 0x00 || b == 0x08 || b == 0x10 || b == 0x20 || b == 0x28 || b == 0x30 || b == 0x38 || b == 0x40 || b == 0x44 || b == 0x48 || b == 0x61 || b == 0x80 || b == 0x90 || b == 0x98 || b == 0xa0 || b == 0xa8 || b == 0xb0) ==> #[trigger] gx_opcode_of(b) == GxOpCodeId::DrawPoints,
{
}

impl GxOpCodeId {
    /// The opcode with code `value`.
    pub fn try_from(value: u8) -> (r: EditorResult<Self>)
        ensures
            match r {
                Ok(o) => is_opcode(value) && o == gx_opcode_of(value),
                Err(e) => !is_opcode(value) && e is Corrupted,
            },
    {
        match value {
            0x00 => Ok(GxOpCodeId::Nop),
            0x08 => Ok(GxOpCodeId::LoadCp),
            0x10 => Ok(GxOpCodeId::LoadXf),
            0x20 => Ok(GxOpCodeId::LoadIndexedPositionMatrix),
            0x28 => Ok(GxOpCodeId::LoadIndexedNormalMatrix),
            0x30 => Ok(GxOpCodeId::LoadIndexedTextureMatrix),
            0x38 => Ok(GxOpCodeId::LoadIndexedLightObject),
            0x40 => Ok(GxOpCodeId::Call),
            0x44 => Ok(GxOpCodeId::Unknown),
            0x48 => Ok(GxOpCodeId::InvalidateVertexCache),
            0x61 => Ok(GxOpCodeId::LoadBp),
            0x80 => Ok(GxOpCodeId::DrawQuads),
            0x90 => Ok(GxOpCodeId::DrawTriangles),
            0x98 => Ok(GxOpCodeId::DrawTriangleStrip),
            0xa0 => Ok(GxOpCodeId::DrawTriangleFan),
            0xa8 => Ok(GxOpCodeId::DrawLines),
            0xb0 => Ok(GxOpCodeId::DrawLineStrip),
            0xb8 => Ok(GxOpCodeId::DrawPoints),
            _ => Err(corrupted(reason_with_value("invalid GX opcode: ", value as u64, ""), None)),
        }
    }
}

/// A command of GX bytecode.
pub enum GxOpCode {
    Nop,
    LoadCp(LoadCpOpCode),
    LoadXf(LoadXfOpCode),
    LoadBp(LoadBpOpCode),
    LoadIndexedPosition(IndexedLoad),
    LoadIndexedNormal(IndexedLoad),
    LoadIndexedTextureMatrix(IndexedLoad),
    LoadIndexedLightObject(IndexedLoad),
    Call(CallDisplayList),
    InvalidateVertexCache,
    DrawQuads(DrawOpCode),
    DrawTriangles(DrawOpCode),
    DrawTriangleStrip(DrawOpCode),
    DrawTriangleFan(DrawOpCode),
    DrawLines(DrawOpCode),
    DrawLineStrip(DrawOpCode),
    DrawPoints(DrawOpCode),
    Unknown,
}

/// A list of GX commands.
pub struct GxBytecode {
    pub commands: Vec<GxOpCode>,
}

/// Which commands a stream may hold: those of vertex declarations (register loads) or
/// those of vertex data (indexed loads, calls and draws).
#[derive(Debug, Copy, Clone, PartialEq, Eq, Structural)]
pub enum GxStream {
    VertexDeclaration,
    VertexData,
}

/// Whether the opcode `b` may stand in a stream of kind `m` (no-ops included).
pub open spec fn allowed(b: u8, m: GxStream) -> bool {
    match m {
        GxStream::VertexDeclaration => b == 0x00 || b == 0x08 || b == 0x10 || b == 0x61,
        GxStream::VertexData => b == 0x00 || b == 0x20 || b == 0x28 || b == 0x30 || b == 0x38 || b == 0x40
            || b == 0x44 || b == 0x48 || is_draw_code(b),
    }
}

/// Number of bytes of the command at `q` (opcode included) in a stream of kind `m`.
pub open spec fn gx_cmd_size(s: Seq<u8>, q: int, m: GxStream, d: VertexDeclaration) -> int {
    let b = s[q];
    if b == 0x08 && m == GxStream::VertexDeclaration {
        6
    } else if b == 0x61 && m == GxStream::VertexDeclaration {
        5
    } else if b == 0x10 && m == GxStream::VertexDeclaration {
        if can_read(s, q + 1, 4) {
            5 + 4 * (u16_be(s, q + 1) + 1)
        } else {
            5
        }
    } else if (b == 0x20 || b == 0x28 || b == 0x30 || b == 0x38) && m == GxStream::VertexData {
        5
    } else if b == 0x40 && m == GxStream::VertexData {
        9
    } else if is_draw_code(b) && m == GxStream::VertexData {
        if can_read(s, q + 1, 2) {
            3 + u16_be(s, q + 1) * vertex_size(d)
        } else {
            3
        }
    } else {
        1
    }
}

/// Where the command at `q` can be read in a stream of kind `m`.
pub open spec fn gx_cmd_ok(s: Seq<u8>, q: int, m: GxStream, d: VertexDeclaration) -> bool {
    let b = s[q];
    &&& allowed(b, m)
    &&& if b == 0x08 {
        can_read(s, q + 1, 5) && load_cp_of(s[q + 1], u32_be(s, q + 2)) is Some
    } else if b == 0x61 {
        can_read(s, q + 1, 4) && load_bp_of(s[q + 1], u24_be(s, q + 2)) is Some
    } else if b == 0x10 {
        load_xf_ok(s, q + 1)
    } else if is_draw_code(b) {
        draw_ok(s, q + 1, d)
    } else {
        can_read(s, q + 1, gx_cmd_size(s, q, m, d) - 1)
    }
}

/// Whether `e` is the error that reading the command at `q` in a stream of kind `m`
/// gives where it cannot be read: a corruption error for an opcode that may not stand
/// there, else that of reading its operands.
pub open spec fn gx_cmd_error(s: Seq<u8>, q: int, m: GxStream, d: VertexDeclaration, e: EditorError) -> bool {
    let b = s[q];
    if !allowed(b, m) {
        e is Corrupted
    } else if b == 0x08 {
        if !can_read(s, q + 1, 5) {
            e is IoError
        } else {
            e is Corrupted
        }
    } else if b == 0x61 {
        bp_error(s, q, e)
    } else if b == 0x10 {
        load_xf_error(s, q + 1, e)
    } else if is_draw_code(b) {
        draw_error(s, q + 1, d, e)
    } else {
        e is IoError
    }
}

/// Whether `e` is the error that reading the commands of a stream of kind `m` from `q`
/// up to `end` gives where they cannot be read: that of its first command that cannot
/// be read, or a corruption error where the commands do not end exactly at `end`.
pub open spec fn gx_error(s: Seq<u8>, q: int, end: int, m: GxStream, d: VertexDeclaration, e: EditorError) -> bool
    decreases end - q,
{
    if q >= end {
        e is Corrupted
    } else if !(0 <= q < s.len()) {
        e is IoError
    } else if !gx_cmd_ok(s, q, m, d) {
        gx_cmd_error(s, q, m, d, e)
    } else if gx_cmd_size(s, q, m, d) < 1 {
        false
    } else if q + gx_cmd_size(s, q, m, d) > end {
        e is Corrupted
    } else {
        gx_error(s, q + gx_cmd_size(s, q, m, d), end, m, d, e)
    }
}

/// Positions of the commands other than no-ops from `q` up to `end`; none where a
/// command cannot be read or the commands do not end exactly at `end`.
pub open spec fn gx_scan(s: Seq<u8>, q: int, end: int, m: GxStream, d: VertexDeclaration) -> Option<Seq<int>>
    decreases end - q,
{
    if q >= end {
        if q == end {
            Some(Seq::empty())
        } else {
            None
        }
    } else if !(0 <= q < s.len()) || !gx_cmd_ok(s, q, m, d) || gx_cmd_size(s, q, m, d) < 1 || q + gx_cmd_size(
        s,
        q,
        m,
        d,
    ) > end {
        None
    } else if s[q] == 0 {
        gx_scan(s, q + 1, end, m, d)
    } else {
        match gx_scan(s, q + gx_cmd_size(s, q, m, d), end, m, d) {
            Some(rest) => Some(seq![q].add(rest)),
            None => None,
        }
    }
}

/// Whether `c` is the command stored at `q` of `s`.
pub open spec fn gx_cmd_is(s: Seq<u8>, q: int, d: VertexDeclaration, c: GxOpCode) -> bool {
    let b = s[q];
    match c {
        GxOpCode::LoadCp(op) => b == 0x08 && load_cp_of(s[q + 1], u32_be(s, q + 2)) == Some(op),
        GxOpCode::LoadBp(op) => b == 0x61 && load_bp_of(s[q + 1], u24_be(s, q + 2)) == Some(op),
        GxOpCode::LoadXf(op) => b == 0x10 && load_xf_is(s, q + 1, op),
        GxOpCode::LoadIndexedPosition(l) => b == 0x20 && l.bits() == u32_be(s, q + 1),
        GxOpCode::LoadIndexedNormal(l) => b == 0x28 && l.bits() == u32_be(s, q + 1),
        GxOpCode::LoadIndexedTextureMatrix(l) => b == 0x30 && l.bits() == u32_be(s, q + 1),
        GxOpCode::LoadIndexedLightObject(l) => b == 0x38 && l.bits() == u32_be(s, q + 1),
        GxOpCode::Call(call) => b == 0x40 && call == CallDisplayList {
            address: u32_be(s, q + 1),
            size: u32_be(s, q + 5),
        },
        GxOpCode::Unknown => b == 0x44,
        GxOpCode::InvalidateVertexCache => b == 0x48,
        GxOpCode::DrawQuads(dr) => b == 0x80 && draw_is(s, q + 1, d, dr),
        GxOpCode::DrawTriangles(dr) => b == 0x90 && draw_is(s, q + 1, d, dr),
        GxOpCode::DrawTriangleStrip(dr) => b == 0x98 && draw_is(s, q + 1, d, dr),
        GxOpCode::DrawTriangleFan(dr) => b == 0xa0 && draw_is(s, q + 1, d, dr),
        GxOpCode::DrawLines(dr) => b == 0xa8 && draw_is(s, q + 1, d, dr),
        GxOpCode::DrawLineStrip(dr) => b == 0xb0 && draw_is(s, q + 1, d, dr),
        GxOpCode::DrawPoints(dr) => b == 0xb8 && draw_is(s, q + 1, d, dr),
        GxOpCode::Nop => false,
    }
}

/// Whether `b` is the bytecode stored from `q` to `end` of `s` in a stream of kind `m`.
pub open spec fn gx_bytecode_is(s: Seq<u8>, q: int, end: int, m: GxStream, d: VertexDeclaration, b: GxBytecode) -> bool {
    let st = gx_scan(s, q, end, m, d)->0;
    &&& b.commands@.len() == st.len()
    &&& forall|k: int| 0 <= k < st.len() ==> gx_cmd_is(s, st[k], d, #[trigger] b.commands@[k])
}

/// A vertex declaration in which every register is zero.
pub open spec fn empty_declaration() -> VertexDeclaration {
    VertexDeclaration {
        vcd_lo: crate::format::mdl0::gx::load_cp::CpVcdLo(0),
        vcd_hi: crate::format::mdl0::gx::load_cp::CpVcdHi(0),
        vat_a: crate::format::mdl0::gx::load_cp::CpVatA(0),
        vat_b: crate::format::mdl0::gx::load_cp::CpVatB(0),
        vat_c: crate::format::mdl0::gx::load_cp::CpVatC(0),
    }
}

impl GxBytecode {
    /// Reads the commands of a stream of kind `m` from the position of `reader` up to
    /// `section_end`, which the last command must end at exactly.
    fn deserialize_stream(reader: &mut RefCursor, m: GxStream, decl: &VertexDeclaration, section_end: u64) -> (r: EditorResult<Self>)
        ensures
            final(reader).bytes() == old(reader).bytes(),
            ({
                let s = old(reader).bytes();
                let p = old(reader).pos();
                match r {
                    Ok(b) => gx_scan(s, p, section_end as int, m, *decl) is Some && gx_bytecode_is(
                        s,
                        p,
                        section_end as int,
                        m,
                        *decl,
                        b,
                    ) && final(reader).pos() == section_end,
                    Err(e) => gx_scan(s, p, section_end as int, m, *decl) is None && gx_error(
                        s,
                        p,
                        section_end as int,
                        m,
                        *decl,
                        e,
                    ),
                }
            }),
    {
        let ghost s = reader.bytes();
        let ghost p = reader.pos();
        let ghost d = *decl;
        let ghost end = section_end as int;
        let mut commands: Vec<GxOpCode> = Vec::new();
        let ghost mut done: Seq<int> = Seq::empty();
        while reader.position() < section_end
            invariant
                reader.bytes() == s,
                s == old(reader).bytes(),
                p == old(reader).pos(),
                d == *decl,
                end == section_end,
                commands@.len() == done.len(),
                forall|k: int| 0 <= k < done.len() ==> gx_cmd_is(s, done[k], d, #[trigger] commands@[k]),
                gx_scan(s, p, end, m, d) == match gx_scan(s, reader.pos(), end, m, d) {
                    Some(rest) => Some(done.add(rest)),
                    None => None::<Seq<int>>,
                },
                forall|e: EditorError| #[trigger] gx_error(s, reader.pos(), end, m, d, e) ==> gx_error(s, p, end, m, d, e),
            decreases (if reader.pos() <= end {
                end - reader.pos()
            } else {
                0
            }),
        {
            let ghost q = reader.pos();
            proof {
                lemma_attr_offset_nonneg(d, 21);
                if can_read(s, q + 1, 2) {
                    assert(u16_be(s, q + 1) * vertex_size(d) >= 0) by (nonlinear_arith)
                        requires
                            vertex_size(d) >= 0,
                            u16_be(s, q + 1) >= 0,
                    ;
                }
            }
            let byte = match reader.read_u8() {
                Ok(b) => b,
                Err(e) => {
                    assert(gx_error(s, q, end, m, d, e));
                    return Err(e);
                },
            };
            let opcode = match GxOpCodeId::try_from(byte) {
                Ok(o) => o,
                Err(e) => {
                    assert(!allowed(s[q], m));
                    assert(gx_error(s, q, end, m, d, e));
                    return Err(e);
                },
            };
            let allowed_here = match m {
                GxStream::VertexDeclaration => match opcode {
                    GxOpCodeId::Nop | GxOpCodeId::LoadCp | GxOpCodeId::LoadXf | GxOpCodeId::LoadBp => true,
                    _ => false,
                },
                GxStream::VertexData => match opcode {
                    GxOpCodeId::LoadCp | GxOpCodeId::LoadXf | GxOpCodeId::LoadBp => false,
                    _ => true,
                },
            };
            if !allowed_here {
                assert(!allowed(s[q], m));
                let err = corrupted("invalid GX opcode in this bytecode".to_owned(), Some(reader.position()));
                assert(gx_error(s, q, end, m, d, err));
                return Err(err);
            }
            let command = match opcode {
                GxOpCodeId::Nop => {
                    assert(gx_scan(s, q, end, m, d) == gx_scan(s, q + 1, end, m, d));
                    proof {
                        assert forall|e: EditorError| #[trigger] gx_error(s, q + 1, end, m, d, e) implies gx_error(
                            s,
                            p,
                            end,
                            m,
                            d,
                            e,
                        ) by {
                            assert(gx_error(s, q, end, m, d, e));
                        }
                    }
                    continue;
                },
                GxOpCodeId::LoadCp => match LoadCpOpCode::deserialize(reader) {
                    Ok(op) => GxOpCode::LoadCp(op),
                    Err(e) => {
                        assert(!gx_cmd_ok(s, q, m, d));
                        assert(gx_error(s, q, end, m, d, e));
                        return Err(e);
                    },
                },
                GxOpCodeId::LoadXf => match LoadXfOpCode::deserialize(reader) {
                    Ok(op) => GxOpCode::LoadXf(op),
                    Err(e) => {
                        assert(!gx_cmd_ok(s, q, m, d));
                        assert(gx_error(s, q, end, m, d, e));
                        return Err(e);
                    },
                },
                GxOpCodeId::LoadBp => match LoadBpOpCode::deserialize(reader) {
                    Ok(op) => GxOpCode::LoadBp(op),
                    Err(e) => {
                        assert(!gx_cmd_ok(s, q, m, d));
                        assert(gx_error(s, q, end, m, d, e));
                        return Err(e);
                    },
                },
                GxOpCodeId::LoadIndexedPositionMatrix => match IndexedLoad::deserialize(reader) {
                    Ok(l) => GxOpCode::LoadIndexedPosition(l),
                    Err(e) => {
                        assert(!gx_cmd_ok(s, q, m, d));
                        assert(gx_error(s, q, end, m, d, e));
                        return Err(e);
                    },
                },
                GxOpCodeId::LoadIndexedNormalMatrix => match IndexedLoad::deserialize(reader) {
                    Ok(l) => GxOpCode::LoadIndexedNormal(l),
                    Err(e) => {
                        assert(!gx_cmd_ok(s, q, m, d));
                        assert(gx_error(s, q, end, m, d, e));
                        return Err(e);
                    },
                },
                GxOpCodeId::LoadIndexedTextureMatrix => match IndexedLoad::deserialize(reader) {
                    Ok(l) => GxOpCode::LoadIndexedTextureMatrix(l),
                    Err(e) => {
                        assert(!gx_cmd_ok(s, q, m, d));
                        assert(gx_error(s, q, end, m, d, e));
                        return Err(e);
                    },
                },
                GxOpCodeId::LoadIndexedLightObject => match IndexedLoad::deserialize(reader) {
                    Ok(l) => GxOpCode::LoadIndexedLightObject(l),
                    Err(e) => {
                        assert(!gx_cmd_ok(s, q, m, d));
                        assert(gx_error(s, q, end, m, d, e));
                        return Err(e);
                    },
                },
                GxOpCodeId::Call => match CallDisplayList::deserialize(reader) {
                    Ok(c) => GxOpCode::Call(c),
                    Err(e) => {
                        assert(!gx_cmd_ok(s, q, m, d));
                        assert(gx_error(s, q, end, m, d, e));
                        return Err(e);
                    },
                },
                GxOpCodeId::Unknown => GxOpCode::Unknown,
                GxOpCodeId::InvalidateVertexCache => GxOpCode::InvalidateVertexCache,
                _ => {
                    let dr = match DrawOpCode::deserialize(reader, decl) {
                        Ok(dr) => dr,
                        Err(e) => {
                            assert(!gx_cmd_ok(s, q, m, d));
                        assert(gx_error(s, q, end, m, d, e));
                            return Err(e);
                        },
                    };
                    match opcode {
                        GxOpCodeId::DrawQuads => GxOpCode::DrawQuads(dr),
                        GxOpCodeId::DrawTriangles => GxOpCode::DrawTriangles(dr),
                        GxOpCodeId::DrawTriangleStrip => GxOpCode::DrawTriangleStrip(dr),
                        GxOpCodeId::DrawTriangleFan => GxOpCode::DrawTriangleFan(dr),
                        GxOpCodeId::DrawLines => GxOpCode::DrawLines(dr),
                        GxOpCodeId::DrawLineStrip => GxOpCode::DrawLineStrip(dr),
                        _ => GxOpCode::DrawPoints(dr),
                    }
                },
            };
            assert(gx_cmd_ok(s, q, m, d));
            assert(reader.pos() == q + gx_cmd_size(s, q, m, d));
            proof {
                assert forall|e: EditorError| #[trigger] gx_error(s, q + gx_cmd_size(s, q, m, d), end, m, d, e) implies gx_error(
                    s,
                    p,
                    end,
                    m,
                    d,
                    e,
                ) by {
                    assert(gx_error(s, q, end, m, d, e));
                }
            }
            assert(gx_cmd_is(s, q, d, command));
            let ghost before = done;
            commands.push(command);
            proof {
                done = done.push(q);
                match gx_scan(s, q + gx_cmd_size(s, q, m, d), end, m, d) {
                    Some(rest) => {
                        assert(before.add(seq![q].add(rest)) =~= done.add(rest));
                    },
                    None => {},
                }
            }
        }
        if reader.position() != section_end {
            let err = corrupted(
                "did not read correct amount of opcodes in GX bytecode".to_owned(),
                Some(reader.position()),
            );
            assert(gx_error(s, reader.pos(), end, m, d, err));
            return Err(err);
        }
        proof {
            assert(done.add(Seq::<int>::empty()) =~= done);
        }
        Ok(GxBytecode { commands })
    }

    /// Reads the vertex declaration bytecode (register loads) from the position of
    /// `reader` up to `section_end`.
    pub fn deserialize_vertex_declaration(reader: &mut RefCursor, section_end: u64) -> (r: EditorResult<Self>)
        ensures
            final(reader).bytes() == old(reader).bytes(),
            ({
                let s = old(reader).bytes();
                let p = old(reader).pos();
                let m = GxStream::VertexDeclaration;
                match r {
                    Ok(b) => gx_scan(s, p, section_end as int, m, empty_declaration()) is Some && gx_bytecode_is(
                        s,
                        p,
                        section_end as int,
                        m,
                        empty_declaration(),
                        b,
                    ) && final(reader).pos() == section_end,
                    Err(e) => gx_scan(s, p, section_end as int, m, empty_declaration()) is None && gx_error(
                        s,
                        p,
                        section_end as int,
                        m,
                        empty_declaration(),
                        e,
                    ),
                }
            }),
    {
        let decl = VertexDeclaration {
            vcd_lo: crate::format::mdl0::gx::load_cp::CpVcdLo::from_bits(0),
            vcd_hi: crate::format::mdl0::gx::load_cp::CpVcdHi::from_bits(0),
            vat_a: crate::format::mdl0::gx::load_cp::CpVatA::from_bits(0),
            vat_b: crate::format::mdl0::gx::load_cp::CpVatB::from_bits(0),
            vat_c: crate::format::mdl0::gx::load_cp::CpVatC::from_bits(0),
        };
        Self::deserialize_stream(reader, GxStream::VertexDeclaration, &decl, section_end)
    }

    /// Reads the vertex data bytecode (indexed loads, calls and draws) from the position
    /// of `reader` up to `section_end`, decoding vertices as `vertex_decl` declares them.
    pub fn deserialize_vertex_data(reader: &mut RefCursor, vertex_decl: &VertexDeclaration, section_end: u64) -> (r: EditorResult<Self>)
        ensures
            final(reader).bytes() == old(reader).bytes(),
            ({
                let s = old(reader).bytes();
                let p = old(reader).pos();
                let m = GxStream::VertexData;
                match r {
                    Ok(b) => gx_scan(s, p, section_end as int, m, *vertex_decl) is Some && gx_bytecode_is(
                        s,
                        p,
                        section_end as int,
                        m,
                        *vertex_decl,
                        b,
                    ) && final(reader).pos() == section_end,
                    Err(e) => gx_scan(s, p, section_end as int, m, *vertex_decl) is None && gx_error(
                        s,
                        p,
                        section_end as int,
                        m,
                        *vertex_decl,
                        e,
                    ),
                }
            }),
    {
        Self::deserialize_stream(reader, GxStream::VertexData, vertex_decl, section_end)
    }

    /// Reads the bytecode of a TEV: a single `LoadBP` command.
    pub fn deserialize_tev_data(reader: &mut RefCursor) -> (r: EditorResult<Self>)
        ensures
            final(reader).bytes() == old(reader).bytes(),
            ({
                let s = old(reader).bytes();
                let p = old(reader).pos();
                match r {
                    Ok(b) => can_read(s, p, 5) && s[p] == 0x61 && load_bp_of(s[p + 1], u24_be(s, p + 2)) is Some
                        && b.commands@.len() == 1 && final(reader).pos() == p + 5 && (b.commands@[0] matches GxOpCode::LoadBp(op) && Some(op)
                        == load_bp_of(s[p + 1], u24_be(s, p + 2))),
                    Err(e) => !(can_read(s, p, 5) && s[p] == 0x61 && load_bp_of(s[p + 1], u24_be(s, p + 2)) is Some)
                        && bp_error(s, p, e),
                }
            }),
    {
        let byte = reader.read_u8()?;
        let opcode = GxOpCodeId::try_from(byte)?;
        match opcode {
            GxOpCodeId::LoadBp => {
                let op = LoadBpOpCode::deserialize(reader)?;
                let mut commands: Vec<GxOpCode> = Vec::new();
                commands.push(GxOpCode::LoadBp(op));
                Ok(GxBytecode { commands })
            },
            _ => Err(corrupted("invalid TEV bytecode opcode".to_owned(), Some(reader.position()))),
        }
    }
}

} // verus!
