//! Polygons (shapes) of MDL0 models: their bone bindings and GX bytecode.
use vstd::prelude::*;

use crate::error::{corrupted, reason_with_value, EditorError, EditorResult};
use crate::format::encoding::Deserialize;
use crate::format::mdl0::gx::load_cp::{load_cp_of, CpVatA, CpVatB, CpVatC, CpVcdHi, CpVcdLo, LoadCpOpCode};
use crate::format::mdl0::gx::{empty_declaration, gx_bytecode_is, gx_cmd_is, gx_error, gx_scan, GxBytecode, GxOpCode, GxStream};
use crate::shared::util::{can_read, i16_be, i32_be, u16_be, u16s_at, u32_be, RefCursor};

use crate::format::mdl0::section::{deserialize_entries, EntryKind};
use crate::node::node::VirtualNodeBody;
use crate::node::refs::{VirtualNodeId, VirtualNodeMap};
verus! {

/// How the vertices of a polygon are stored: the command processor registers that
/// its vertex declaration bytecode sets.
#[derive(Debug, Copy, Clone, PartialEq, Eq)]
pub struct VertexDeclaration {
    pub vcd_lo: CpVcdLo,
    pub vcd_hi: CpVcdHi,
    pub vat_a: CpVatA,
    pub vat_b: CpVatB,
    pub vat_c: CpVatC,
}

/// The declaration that the first `n` commands of `cmds` set, starting from `d`: each
/// register holds the value of its last load.
pub open spec fn declaration_after(d: VertexDeclaration, cmds: Seq<GxOpCode>, n: nat) -> VertexDeclaration
    decreases n,
{
    if n == 0 {
        d
    } else {
        let prev = declaration_after(d, cmds, (n - 1) as nat);
        match cmds[n - 1] {
            GxOpCode::LoadCp(LoadCpOpCode::VcdLo(x)) => VertexDeclaration { vcd_lo: x, ..prev },
            GxOpCode::LoadCp(LoadCpOpCode::VcdHi(x)) => VertexDeclaration { vcd_hi: x, ..prev },
            GxOpCode::LoadCp(LoadCpOpCode::VatA(x)) => VertexDeclaration { vat_a: x, ..prev },
            GxOpCode::LoadCp(LoadCpOpCode::VatB(x)) => VertexDeclaration { vat_b: x, ..prev },
            GxOpCode::LoadCp(LoadCpOpCode::VatC(x)) => VertexDeclaration { vat_c: x, ..prev },
            _ => prev,
        }
    }
}

/// A command that loads the word `w` into the command processor at address `a` sets the
/// register of the declaration that the address names (0x50 the low and 0x60 the high
/// vertex descriptor, 0x70, 0x80 and 0x90 the attribute tables A, B and C) to `w`, and
/// leaves the other registers as they were; any other command changes nothing.
pub proof fn lemma_declaration_load(d: VertexDeclaration, cmds: Seq<GxOpCode>, n: nat, a: u8, w: u32)
    requires
        n > 0,
        load_cp_of(a, w) matches Some(op) && cmds[n - 1] == GxOpCode::LoadCp(op),
    ensures
        ({
            let prev = declaration_after(d, cmds, (n - 1) as nat);
            let next = declaration_after(d, cmds, n);
            &&& a == 0x50 ==> next == VertexDeclaration { vcd_lo: CpVcdLo(w), ..prev }
            &&& a == 0x60 ==> next == VertexDeclaration { vcd_hi: CpVcdHi(w), ..prev }
            &&& a == 0x70 ==> next == VertexDeclaration { vat_a: CpVatA(w), ..prev }
            &&& a == 0x80 ==> next == VertexDeclaration { vat_b: CpVatB(w), ..prev }
            &&& a == 0x90 ==> next == VertexDeclaration { vat_c: CpVatC(w), ..prev }
        }),
{
}

/// Commands that load nothing into the command processor leave the declaration as it is.
pub proof fn lemma_declaration_other_command(d: VertexDeclaration, cmds: Seq<GxOpCode>, n: nat)
    requires
        n > 0,
        !(cmds[n - 1] is LoadCp),
    ensures
        declaration_after(d, cmds, n) == declaration_after(d, cmds, (n - 1) as nat),
{
}

impl VertexDeclaration {
    /// The declaration that `bytecode` sets: each register holds its last loaded value,
    /// or zero where the bytecode does not load it.
    pub fn from_bytecode(bytecode: &GxBytecode) -> (r: Self)
        ensures
            r == declaration_after(empty_declaration(), bytecode.commands@, bytecode.commands@.len()),
    {
        let mut d = VertexDeclaration {
            vcd_lo: CpVcdLo::from_bits(0),
            vcd_hi: CpVcdHi::from_bits(0),
            vat_a: CpVatA::from_bits(0),
            vat_b: CpVatB::from_bits(0),
            vat_c: CpVatC::from_bits(0),
        };
        let mut i: usize = 0;
        while i < bytecode.commands.len()
            invariant
                i <= bytecode.commands@.len(),
                d == declaration_after(empty_declaration(), bytecode.commands@, i as nat),
            decreases bytecode.commands@.len() - i,
        {
            match &bytecode.commands[i] {
                GxOpCode::LoadCp(LoadCpOpCode::VcdLo(x)) => {
                    d.vcd_lo = *x;
                },
                GxOpCode::LoadCp(LoadCpOpCode::VcdHi(x)) => {
                    d.vcd_hi = *x;
                },
                GxOpCode::LoadCp(LoadCpOpCode::VatA(x)) => {
                    d.vat_a = *x;
                },
                GxOpCode::LoadCp(LoadCpOpCode::VatB(x)) => {
                    d.vat_b = *x;
                },
                GxOpCode::LoadCp(LoadCpOpCode::VatC(x)) => {
                    d.vat_c = *x;
                },
                _ => {},
            }
            i = i + 1;
        }
        d
    }
}

/// An entry of a bone table.
#[derive(Debug, Copy, Clone, PartialEq, Eq)]
pub struct BoneTableEntry {
    pub bone_id1: i16,
    pub bone_id2: i16,
}

impl Deserialize for BoneTableEntry {
    fn deserialize(reader: &mut RefCursor) -> (r: EditorResult<Self>)
        ensures
            final(reader).bytes() == old(reader).bytes(),
            ({
                let s = old(reader).bytes();
                let p = old(reader).pos();
                match r {
                    Ok(e) => can_read(s, p, 4) && e == (BoneTableEntry { bone_id1: i16_be(s, p), bone_id2: i16_be(s, p + 2) })
                        && final(reader).pos() == p + 4,
                    Err(e) => !can_read(s, p, 4) && e is IoError,
                }
            }),
    {
        let bone_id1 = reader.read_i16()?;
        let bone_id2 = reader.read_i16()?;
        Ok(BoneTableEntry { bone_id1, bone_id2 })
    }
}

/// The bones that drive the matrices of a polygon.
pub struct BoneTable {
    pub entries: Vec<BoneTableEntry>,
}

/// Where a bone table can be read at `p` of `s`: its count and its entries.
pub open spec fn bone_table_ok(s: Seq<u8>, p: int) -> bool {
    can_read(s, p, 4) && can_read(s, p + 4, 4 * u32_be(s, p))
}

/// Whether `t` is the bone table stored at `p` of `s`.
pub open spec fn bone_table_is(s: Seq<u8>, p: int, t: BoneTable) -> bool {
    &&& t.entries@.len() == u32_be(s, p)
    &&& forall|k: int|
        0 <= k < u32_be(s, p) ==> #[trigger] t.entries@[k] == (BoneTableEntry {
            bone_id1: i16_be(s, p + 4 + 4 * k),
            bone_id2: i16_be(s, p + 6 + 4 * k),
        })
}

/// Where each field of the value lies: the bytes it is read from.
pub proof fn lemma_bone_table_layout(s: Seq<u8>, p: int, t: BoneTable)
    requires
        bone_table_is(s, p, t),
    ensures
        (t.entries@.len() == u32_be(s, p)),
        (forall|k: int| 0 <= k < u32_be(s, p) ==> #[trigger] t.entries@[k] == (BoneTableEntry { bone_id1: i16_be(s, p + 4 + 4 * k), bone_id2: i16_be(s, p + 6 + 4 * k), })),
{
}

impl Deserialize for BoneTable {
    fn deserialize(reader: &mut RefCursor) -> (r: EditorResult<Self>)
        ensures
            final(reader).bytes() == old(reader).bytes(),
            ({
                let s = old(reader).bytes();
                let p = old(reader).pos();
                match r {
                    Ok(t) => bone_table_ok(s, p) && bone_table_is(s, p, t) && final(reader).pos() == p + 4 + 4
                        * u32_be(s, p),
                    Err(e) => !bone_table_ok(s, p) && e is IoError,
                }
            }),
    {
        let ghost s = reader.bytes();
        let ghost p = reader.pos();
        let entry_count = reader.read_u32()?;
        let mut entries: Vec<BoneTableEntry> = Vec::new();
        let mut k: u32 = 0;
        while k < entry_count
            invariant
                reader.bytes() == s,
                s == old(reader).bytes(),
                p == old(reader).pos(),
                can_read(s, p, 4),
                entry_count == u32_be(s, p),
                k <= entry_count,
                can_read(s, p + 4, 4 * k),
                reader.pos() == p + 4 + 4 * k,
                entries@.len() == k,
                forall|j: int|
                    0 <= j < k ==> #[trigger] entries@[j] == (BoneTableEntry {
                        bone_id1: i16_be(s, p + 4 + 4 * j),
                        bone_id2: i16_be(s, p + 6 + 4 * j),
                    }),
            decreases entry_count - k,
        {
            let e = BoneTableEntry::deserialize(reader)?;
            entries.push(e);
            k = k + 1;
        }
        Ok(BoneTable { entries })
    }
}

/// What the polygon is drawn with.
#[derive(Debug, Copy, Clone, PartialEq, Eq, Structural)]
pub enum PolygonModifier {
    /// No modifier (`None` in the file format's terms).
    Unmodified,
    ChangeCurrentMatrix,
    Invisible,
}

/// The modifier with code `v` (0 to 2).
pub open spec fn polygon_modifier_of(v: u32) -> PolygonModifier {
    if v == 0 {
        PolygonModifier::Unmodified
    } else if v == 1 {
        PolygonModifier::ChangeCurrentMatrix
    } else {
        PolygonModifier::Invisible
    }
}

/// The codes that the file format assigns: each code stated here names the value
/// beside it, and every code not listed gives the value of the last line.
pub proof fn lemma_polygon_modifier_codes()
    ensures
        polygon_modifier_of(0) == PolygonModifier::Unmodified,
        polygon_modifier_of(1) == PolygonModifier::ChangeCurrentMatrix,
        polygon_modifier_of(2) == PolygonModifier::Invisible,
        forall|v: u32| !(v == 0 || v == 1) ==> #[trigger] polygon_modifier_of(v) == PolygonModifier::Invisible,
{
}

impl PolygonModifier {
    /// The modifier with code `value`, which must be 0, 1 or 2.
    pub fn try_from(value: u32) -> (r: EditorResult<Self>)
        ensures
            match r {
                Ok(m) => value <= 2 && m == polygon_modifier_of(value),
                Err(e) => value > 2 && e is Corrupted,
            },
    {
        match value {
            0 => Ok(PolygonModifier::Unmodified),
            1 => Ok(PolygonModifier::ChangeCurrentMatrix),
            2 => Ok(PolygonModifier::Invisible),
            _ => Err(corrupted(reason_with_value("invalid object modifier: ", value as u64, " (expected 0, 1 or 2)"), None)),
        }
    }
}

impl Deserialize for PolygonModifier {
    fn deserialize(reader: &mut RefCursor) -> (r: EditorResult<Self>)
        ensures
            final(reader).bytes() == old(reader).bytes(),
            ({
                let s = old(reader).bytes();
                let p = old(reader).pos();
                match r {
                    Ok(m) => can_read(s, p, 4) && u32_be(s, p) <= 2 && m == polygon_modifier_of(u32_be(s, p))
                        && final(reader).pos() == p + 4,
                    Err(e) => if can_read(s, p, 4) {
                        u32_be(s, p) > 2 && e is Corrupted
                    } else {
                        e is IoError
                    },
                }
            }),
    {
        let word = reader.read_u32()?;
        Self::try_from(word)
    }
}

/// How a polygon is bound to bones: to a single bone, or through a table.
pub enum BoneBind {
    Single(u32),
    Table(BoneTable),
}

/// A polygon: its buffers, bone binding and GX bytecode.
pub struct Polygon {
    pub definitions_buffer_size: u32,
    pub definitions_size: u32,
    pub definitions_offset: i32,
    pub vertex_buffer_size: u32,
    pub vertex_data_size: u32,
    pub vertex_data_offset: i32,
    pub array_flags: u32,
    pub modifier: PolygonModifier,
    pub index: u32,
    pub vertex_count: u32,
    pub face_count: u32,
    pub vertex_array_id: u16,
    pub normal_array_id: u16,
    pub color_array_ids: [u16; 2],
    pub uv_array_ids: [u16; 8],
    pub bone_bind: BoneBind,
    pub vertex_decl_gx: GxBytecode,
    pub vertex_data_gx: GxBytecode,
}

/// The offset of the definitions offset field from the start of a polygon.
pub const VERTEX_DECL_INTERNAL_OFFSET: u64 = 0x20;

/// The offset of the vertex data offset field from the start of a polygon.
pub const VERTEX_DATA_INTERNAL_OFFSET: u64 = 0x24;

/// Start of the vertex declaration bytecode of the polygon at `p`.
pub open spec fn decl_start(s: Seq<u8>, p: int) -> int {
    (p + 0x20 + i32_be(s, p + 32)) as u64 as int
}

/// End of the vertex declaration bytecode of the polygon at `p`.
pub open spec fn decl_end(s: Seq<u8>, p: int) -> int {
    (p + 0x20 + i32_be(s, p + 32) + u32_be(s, p + 28)) as u64 as int
}

/// Start of the vertex data bytecode of the polygon at `p`.
pub open spec fn data_start(s: Seq<u8>, p: int) -> int {
    (p + 0x24 + i32_be(s, p + 44)) as u64 as int
}

/// End of the vertex data bytecode of the polygon at `p`.
pub open spec fn data_end(s: Seq<u8>, p: int) -> int {
    (p + 0x24 + i32_be(s, p + 44) + u32_be(s, p + 40)) as u64 as int
}

/// Where the polygon at `p` of `s` can be read: its header, its bone table where it has
/// one, and both of its bytecode streams. Vertex data is decoded with the declaration
/// `d`, which its vertex declaration bytecode sets.
pub open spec fn polygon_ok(s: Seq<u8>, p: int, d: VertexDeclaration) -> bool {
    &&& can_read(s, p, 104)
    &&& u32_be(s, p + 52) <= 2
    &&& p + u32_be(s, p + 100) <= u64::MAX
    &&& (i32_be(s, p + 8) == -1 ==> bone_table_ok(s, p + u32_be(s, p + 100)))
    &&& p <= i64::MAX
    &&& gx_scan(s, decl_start(s, p), decl_end(s, p), GxStream::VertexDeclaration, empty_declaration()) is Some
    &&& gx_scan(s, data_start(s, p), data_end(s, p), GxStream::VertexData, d) is Some
}

/// Whether `poly` is the polygon stored at `p` of `s`.
pub open spec fn polygon_is(s: Seq<u8>, p: int, poly: Polygon) -> bool {
    let d = declaration_after(
        empty_declaration(),
        poly.vertex_decl_gx.commands@,
        poly.vertex_decl_gx.commands@.len(),
    );
    &&& poly.definitions_buffer_size == u32_be(s, p + 24)
    &&& poly.definitions_size == u32_be(s, p + 28)
    &&& poly.definitions_offset == i32_be(s, p + 32)
    &&& poly.vertex_buffer_size == u32_be(s, p + 36)
    &&& poly.vertex_data_size == u32_be(s, p + 40)
    &&& poly.vertex_data_offset == i32_be(s, p + 44)
    &&& poly.array_flags == u32_be(s, p + 48)
    &&& poly.modifier == polygon_modifier_of(u32_be(s, p + 52))
    &&& poly.index == u32_be(s, p + 60)
    &&& poly.vertex_count == u32_be(s, p + 64)
    &&& poly.face_count == u32_be(s, p + 68)
    &&& poly.vertex_array_id == u16_be(s, p + 72)
    &&& poly.normal_array_id == u16_be(s, p + 74)
    &&& poly.color_array_ids@ == u16s_at(s, p + 76, 2)
    &&& poly.uv_array_ids@ == u16s_at(s, p + 80, 8)
    &&& match poly.bone_bind {
        BoneBind::Single(i) => i32_be(s, p + 8) != -1 && i == i32_be(s, p + 8) as u32,
        BoneBind::Table(t) => i32_be(s, p + 8) == -1 && bone_table_is(s, p + u32_be(s, p + 100), t),
    }
    &&& gx_bytecode_is(
        s,
        decl_start(s, p),
        decl_end(s, p),
        GxStream::VertexDeclaration,
        empty_declaration(),
        poly.vertex_decl_gx,
    )
    &&& polygon_ok(s, p, d)
    &&& gx_bytecode_is(s, data_start(s, p), data_end(s, p), GxStream::VertexData, d, poly.vertex_data_gx)
}

/// Where each field of the polygon header lies: the bytes it is read from.
pub proof fn lemma_polygon_layout(s: Seq<u8>, p: int, poly: Polygon)
    requires
        polygon_is(s, p, poly),
    ensures
        (poly.definitions_buffer_size == u32_be(s, p + 24)),
        (poly.definitions_size == u32_be(s, p + 28)),
        (poly.definitions_offset == i32_be(s, p + 32)),
        (poly.vertex_buffer_size == u32_be(s, p + 36)),
        (poly.vertex_data_size == u32_be(s, p + 40)),
        (poly.vertex_data_offset == i32_be(s, p + 44)),
        (poly.array_flags == u32_be(s, p + 48)),
        (poly.modifier == polygon_modifier_of(u32_be(s, p + 52))),
        (poly.index == u32_be(s, p + 60)),
        (poly.vertex_count == u32_be(s, p + 64)),
        (poly.face_count == u32_be(s, p + 68)),
        (poly.vertex_array_id == u16_be(s, p + 72)),
        (poly.normal_array_id == u16_be(s, p + 74)),
        (poly.color_array_ids@ == u16s_at(s, p + 76, 2)),
        (poly.uv_array_ids@ == u16s_at(s, p + 80, 8)),
        (poly.bone_bind matches BoneBind::Single(i) ==> i32_be(s, p + 8) != -1 && i == i32_be(s, p + 8) as u32),
        (poly.bone_bind matches BoneBind::Table(t) ==> i32_be(s, p + 8) == -1 && bone_table_is(s, p + u32_be(s, p + 100), t)),
{
}

/// The declaration that the register loads among the commands at positions `st[..n]`
/// of `s` set, starting from all registers zero.
pub open spec fn declaration_at(s: Seq<u8>, st: Seq<int>, n: nat) -> VertexDeclaration
    decreases n,
{
    if n == 0 {
        empty_declaration()
    } else {
        let prev = declaration_at(s, st, (n - 1) as nat);
        let q = st[n - 1];
        if s[q] == 0x08 {
            match load_cp_of(s[q + 1], u32_be(s, q + 2)) {
                Some(LoadCpOpCode::VcdLo(x)) => VertexDeclaration { vcd_lo: x, ..prev },
                Some(LoadCpOpCode::VcdHi(x)) => VertexDeclaration { vcd_hi: x, ..prev },
                Some(LoadCpOpCode::VatA(x)) => VertexDeclaration { vat_a: x, ..prev },
                Some(LoadCpOpCode::VatB(x)) => VertexDeclaration { vat_b: x, ..prev },
                Some(LoadCpOpCode::VatC(x)) => VertexDeclaration { vat_c: x, ..prev },
                None => prev,
            }
        } else {
            prev
        }
    }
}

/// The vertex declaration of the polygon at `p`: what its vertex declaration bytecode sets.
pub open spec fn polygon_declaration(s: Seq<u8>, p: int) -> VertexDeclaration {
    let st = gx_scan(s, decl_start(s, p), decl_end(s, p), GxStream::VertexDeclaration, empty_declaration())->0;
    declaration_at(s, st, st.len())
}

/// Where the polygon at `p` of `s` can be read, with the declaration its bytecode sets.
pub open spec fn polygon_readable(s: Seq<u8>, p: int) -> bool {
    polygon_ok(s, p, polygon_declaration(s, p))
}

/// Whether `e` is the error that reading the polygon at `p` of `s` gives where it cannot
/// be read: that of its first part, in order, that cannot be read (its header, with its
/// modifier code and offsets, its bone table, its vertex declaration bytecode, then its
/// vertex data bytecode, decoded with the declaration that the former sets).
pub open spec fn polygon_error(s: Seq<u8>, p: int, e: EditorError) -> bool {
    if !can_read(s, p, 56) {
        e is IoError
    } else if u32_be(s, p + 52) > 2 {
        e is Corrupted
    } else if !can_read(s, p, 104) {
        e is IoError
    } else if !(p + u32_be(s, p + 100) <= u64::MAX && p <= i64::MAX) {
        e is Corrupted
    } else if i32_be(s, p + 8) == -1 && !bone_table_ok(s, p + u32_be(s, p + 100)) {
        e is IoError
    } else if gx_scan(s, decl_start(s, p), decl_end(s, p), GxStream::VertexDeclaration, empty_declaration()) is None {
        gx_error(s, decl_start(s, p), decl_end(s, p), GxStream::VertexDeclaration, empty_declaration(), e)
    } else {
        gx_error(s, data_start(s, p), data_end(s, p), GxStream::VertexData, polygon_declaration(s, p), e)
    }
}

/// The declaration that read vertex declaration bytecode sets is the one its bytes set.
proof fn lemma_declaration_of_bytes(s: Seq<u8>, q: int, end: int, b: GxBytecode, n: nat)
    requires
        gx_scan(s, q, end, GxStream::VertexDeclaration, empty_declaration()) is Some,
        gx_bytecode_is(s, q, end, GxStream::VertexDeclaration, empty_declaration(), b),
        n <= b.commands@.len(),
    ensures
        declaration_after(empty_declaration(), b.commands@, n) == declaration_at(
            s,
            gx_scan(s, q, end, GxStream::VertexDeclaration, empty_declaration())->0,
            n,
        ),
    decreases n,
{
    if n > 0 {
        lemma_declaration_of_bytes(s, q, end, b, (n - 1) as nat);
        let c = b.commands@[n - 1];
        assert(gx_cmd_is(s, gx_scan(s, q, end, GxStream::VertexDeclaration, empty_declaration())->0[n - 1], empty_declaration(), c));
    }
}

/// Reads `n` consecutive big-endian `u16` values into an array of two.
fn read_u16x2(reader: &mut RefCursor) -> (r: EditorResult<[u16; 2]>)
    ensures
        final(reader).bytes() == old(reader).bytes(),
        match r {
            Ok(v) => can_read(old(reader).bytes(), old(reader).pos(), 4) && v@ == u16s_at(
                old(reader).bytes(),
                old(reader).pos(),
                2,
            ) && final(reader).pos() == old(reader).pos() + 4,
            Err(e) => !can_read(old(reader).bytes(), old(reader).pos(), 4) && e is IoError,
        },
{
    let v = reader.read_u16_vec(2)?;
    let a = [v[0], v[1]];
    assert(a@ =~= v@);
    Ok(a)
}

/// Reads eight consecutive big-endian `u16` values.
fn read_u16x8(reader: &mut RefCursor) -> (r: EditorResult<[u16; 8]>)
    ensures
        final(reader).bytes() == old(reader).bytes(),
        match r {
            Ok(v) => can_read(old(reader).bytes(), old(reader).pos(), 16) && v@ == u16s_at(
                old(reader).bytes(),
                old(reader).pos(),
                8,
            ) && final(reader).pos() == old(reader).pos() + 16,
            Err(e) => !can_read(old(reader).bytes(), old(reader).pos(), 16) && e is IoError,
        },
{
    let v = reader.read_u16_vec(8)?;
    let a = [v[0], v[1], v[2], v[3], v[4], v[5], v[6], v[7]];
    assert(a@ =~= v@);
    Ok(a)
}

impl Deserialize for Polygon {
    fn deserialize(reader: &mut RefCursor) -> (r: EditorResult<Self>)
        ensures
            final(reader).bytes() == old(reader).bytes(),
            ({
                let s = old(reader).bytes();
                let p = old(reader).pos();
                match r {
                    Ok(poly) => polygon_readable(s, p) && polygon_is(s, p, poly) && final(reader).pos() == data_end(
                        s,
                        p,
                    ),
                    Err(e) => !polygon_readable(s, p) && polygon_error(s, p, e),
                }
            }),
    {
        let ghost s = reader.bytes();
        let ghost p = reader.pos();
        let object_start = reader.position();
        let _length = reader.read_u32()?;
        let _mdl0_offset = reader.read_i32()?;
        let bone_index_word = reader.read_i32()?;
        let _cp_vtx = reader.read_u32()?;
        let _cp_tex = reader.read_u32()?;
        let _xf_nor_spec = reader.read_u32()?;
        let definitions_buffer_size = reader.read_u32()?;
        let definitions_size = reader.read_u32()?;
        let definitions_offset = reader.read_i32()?;
        let vertex_buffer_size = reader.read_u32()?;
        let vertex_data_size = reader.read_u32()?;
        let vertex_data_offset = reader.read_i32()?;
        let array_flags = reader.read_u32()?;
        let modifier = PolygonModifier::deserialize(reader)?;
        let _name_offset = reader.read_u32()?;
        let index = reader.read_u32()?;
        let vertex_count = reader.read_u32()?;
        let face_count = reader.read_u32()?;
        let vertex_array_id = reader.read_u16()?;
        let normal_array_id = reader.read_u16()?;
        let color_array_ids = read_u16x2(reader)?;
        let uv_array_ids = read_u16x8(reader)?;
        let _unknown = reader.read_u32()?;
        let bone_table_offset = reader.read_u32()?;
        if object_start > u64::MAX - bone_table_offset as u64 || object_start > 0x7fff_ffff_ffff_ffff {
            return Err(corrupted("polygon offsets overflow".to_owned(), Some(object_start)));
        }
        reader.set_position(object_start + bone_table_offset as u64);
        let bone_bind = if bone_index_word == -1 {
            BoneBind::Table(BoneTable::deserialize(reader)?)
        } else {
            BoneBind::Single(bone_index_word as u32)
        };
        let definitions_start: i128 = object_start as i128 + VERTEX_DECL_INTERNAL_OFFSET as i128
            + definitions_offset as i128;
        let definitions_end: i128 = definitions_start + definitions_size as i128;
        reader.set_position(definitions_start as u64);
        let vertex_decl_gx = GxBytecode::deserialize_vertex_declaration(reader, definitions_end as u64)?;
        let decl = VertexDeclaration::from_bytecode(&vertex_decl_gx);
        proof {
            lemma_declaration_of_bytes(
                s,
                decl_start(s, p),
                decl_end(s, p),
                vertex_decl_gx,
                vertex_decl_gx.commands@.len(),
            );
        }
        let vertices_start: i128 = object_start as i128 + VERTEX_DATA_INTERNAL_OFFSET as i128
            + vertex_data_offset as i128;
        let vertices_end: i128 = vertices_start + vertex_data_size as i128;
        reader.set_position(vertices_start as u64);
        let vertex_data_gx = GxBytecode::deserialize_vertex_data(reader, &decl, vertices_end as u64)?;
        Ok(Polygon {
            definitions_buffer_size,
            definitions_size,
            definitions_offset,
            vertex_buffer_size,
            vertex_data_size,
            vertex_data_offset,
            array_flags,
            modifier,
            index,
            vertex_count,
            face_count,
            vertex_array_id,
            normal_array_id,
            color_array_ids,
            uv_array_ids,
            bone_bind,
            vertex_decl_gx,
            vertex_data_gx,
        })
    }
}

/// Reads the section of polygons at the position of `reader`: a node for each entry
/// of its index group, attached to `parent_id`. Data offsets count from `header_start`,
/// the start of the MDL0 subfile.
pub fn deserialize_virtual(
    reader: &mut RefCursor,
    header_start: u32,
    parent_id: VirtualNodeId,
    node_map: &mut VirtualNodeMap,
) -> (r: EditorResult<VirtualNodeBody>)
    ensures
        final(reader).bytes() == old(reader).bytes(),
        crate::format::mdl0::section::entries_result(
            old(reader).bytes(),
            old(reader).pos(),
            header_start,
            parent_id,
            EntryKind::Polygons,
            &*old(node_map),
            &*final(node_map),
            r,
        ),
{
    deserialize_entries(reader, header_start, parent_id, node_map, EntryKind::Polygons)
}

} // verus!
