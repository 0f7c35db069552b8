//! The `LoadXF` opcode: writes to the registers of the transform unit, which
//! generate texture coordinates.
use vstd::prelude::*;

use crate::error::{corrupted, reason_with_value, EditorError, EditorResult};
use crate::format::bits::{bit, field, get_bit, get_field};
use crate::format::encoding::Deserialize;
use crate::shared::util::{can_read, u16_be, u32_be, RefCursor};

verus! {

/// Numbers of colors, normals and texture coordinates that the transform unit gets.
#[derive(Debug, Copy, Clone, PartialEq, Eq, Structural)]
pub struct XfSizePayload(pub u32);

impl XfSizePayload {
    /// The word this value is made of.
    pub open spec fn bits(&self) -> u32 {
        self.0
    }

    /// The value made of the word `bits`.
    pub fn from_bits(bits: u32) -> (r: Self)
        ensures
            r.bits() == bits,
    {
        XfSizePayload(bits)
    }

    /// The word this value is made of.
    pub fn into_bits(&self) -> (r: u32)
        ensures
            r == self.bits(),
    {
        self.0
    }

    /// Bits 0..2 of the word.
    pub fn color_count(&self) -> (r: u8)
        ensures
            r == field(self.bits(), 0, 0x3),
    {
        get_field(self.0, 0, 0x3) as u8
    }

    /// Bits 2..4 of the word.
    pub fn normal_count(&self) -> (r: u8)
        ensures
            r == field(self.bits(), 2, 0x3),
    {
        get_field(self.0, 2, 0x3) as u8
    }

    /// Bits 4..8 of the word.
    pub fn uv_count(&self) -> (r: u8)
        ensures
            r == field(self.bits(), 4, 0xf),
    {
        get_field(self.0, 4, 0xf) as u8
    }
}

/// The projection of generated texture coordinates.
#[derive(Debug, Copy, Clone, PartialEq, Eq, Structural)]
pub enum XfProjectionType {
    St,
    Stq,
    /// Fallback for codes that name no variant.
    Invalid,
}

/// The projection of generated texture coordinates with code `v`.
pub open spec fn xf_projection_type_of(v: u32) -> XfProjectionType {
    if v == 0 {
        XfProjectionType::St
    } else if v == 1 {
        XfProjectionType::Stq
    } else {
        XfProjectionType::Invalid
    }
}

/// The codes that the file format assigns: each code stated here names the value
/// beside it, and every code not listed gives the value of the last line.
pub proof fn lemma_xf_projection_type_codes()
    ensures
        xf_projection_type_of(0) == XfProjectionType::St,
        xf_projection_type_of(1) == XfProjectionType::Stq,
        forall|v: u32| !(v == 0 || v == 1) ==> #[trigger] xf_projection_type_of(v) == XfProjectionType::Invalid,
{
}

/// The code of `x`.
pub open spec fn xf_projection_type_code(x: XfProjectionType) -> u32 {
    match x {
        XfProjectionType::St => 0,
        XfProjectionType::Stq => 1,
        XfProjectionType::Invalid => 2,
    }
}

impl XfProjectionType {
    /// The variant with code `v`; other codes give `Invalid`.
    pub fn from_bits(v: u32) -> (r: Self)
        ensures
            r == xf_projection_type_of(v),
    {
        match v {
            0 => XfProjectionType::St,
            1 => XfProjectionType::Stq,
            _ => XfProjectionType::Invalid,
        }
    }

    /// The code of this variant.
    pub fn into_bits(self) -> (r: u32)
        ensures
            r == xf_projection_type_code(self),
    {
        match self {
            XfProjectionType::St => 0,
            XfProjectionType::Stq => 1,
            XfProjectionType::Invalid => 2,
        }
    }
}

/// The form of the input of texture coordinate generation.
#[derive(Debug, Copy, Clone, PartialEq, Eq, Structural)]
pub enum XfInputForm {
    /// Generally used with ST projection.
    Ab11,
    /// Generally used with STQ projection.
    Abc1,
    /// Fallback for codes that name no variant.
    Invalid,
}

/// The form of the input of texture coordinate generation with code `v`.
pub open spec fn xf_input_form_of(v: u32) -> XfInputForm {
    if v == 0 {
        XfInputForm::Ab11
    } else if v == 1 {
        XfInputForm::Abc1
    } else {
        XfInputForm::Invalid
    }
}

/// The codes that the file format assigns: each code stated here names the value
/// beside it, and every code not listed gives the value of the last line.
pub proof fn lemma_xf_input_form_codes()
    ensures
        xf_input_form_of(0) == XfInputForm::Ab11,
        xf_input_form_of(1) == XfInputForm::Abc1,
        forall|v: u32| !(v == 0 || v == 1) ==> #[trigger] xf_input_form_of(v) == XfInputForm::Invalid,
{
}

/// The code of `x`.
pub open spec fn xf_input_form_code(x: XfInputForm) -> u32 {
    match x {
        XfInputForm::Ab11 => 0,
        XfInputForm::Abc1 => 1,
        XfInputForm::Invalid => 2,
    }
}

impl XfInputForm {
    /// The variant with code `v`; other codes give `Invalid`.
    pub fn from_bits(v: u32) -> (r: Self)
        ensures
            r == xf_input_form_of(v),
    {
        match v {
            0 => XfInputForm::Ab11,
            1 => XfInputForm::Abc1,
            _ => XfInputForm::Invalid,
        }
    }

    /// The code of this variant.
    pub fn into_bits(self) -> (r: u32)
        ensures
            r == xf_input_form_code(self),
    {
        match self {
            XfInputForm::Ab11 => 0,
            XfInputForm::Abc1 => 1,
            XfInputForm::Invalid => 2,
        }
    }
}

/// How texture coordinates are generated.
#[derive(Debug, Copy, Clone, PartialEq, Eq, Structural)]
pub enum XfTexGenType {
    Regular,
    EmbossMapping,
    ColorMapping1,
    ColorMapping2,
    /// Fallback for codes that name no variant.
    Invalid,
}

/// How texture coordinates are generated, for code `v`.
pub open spec fn xf_tex_gen_type_of(v: u32) -> XfTexGenType {
    if v == 0 {
        XfTexGenType::Regular
    } else if v == 1 {
        XfTexGenType::EmbossMapping
    } else if v == 2 {
        XfTexGenType::ColorMapping1
    } else if v == 3 {
        XfTexGenType::ColorMapping2
    } else {
        XfTexGenType::Invalid
    }
}

/// The codes that the file format assigns: each code stated here names the value
/// beside it, and every code not listed gives the value of the last line.
pub proof fn lemma_xf_tex_gen_type_codes()
    ensures
        xf_tex_gen_type_of(0) == XfTexGenType::Regular,
        xf_tex_gen_type_of(1) == XfTexGenType::EmbossMapping,
        xf_tex_gen_type_of(2) == XfTexGenType::ColorMapping1,
        xf_tex_gen_type_of(3) == XfTexGenType::ColorMapping2,
        forall|v: u32| !(v == 0 || v == 1 || v == 2 || v == 3) ==> #[trigger] xf_tex_gen_type_of(v) == XfTexGenType::Invalid,
{
}

/// The code of `x`.
pub open spec fn xf_tex_gen_type_code(x: XfTexGenType) -> u32 {
    match x {
        XfTexGenType::Regular => 0,
        XfTexGenType::EmbossMapping => 1,
        XfTexGenType::ColorMapping1 => 2,
        XfTexGenType::ColorMapping2 => 3,
        XfTexGenType::Invalid => 4,
    }
}

impl XfTexGenType {
    /// The variant with code `v`; other codes give `Invalid`.
    pub fn from_bits(v: u32) -> (r: Self)
        ensures
            r == xf_tex_gen_type_of(v),
    {
        match v {
            0 => XfTexGenType::Regular,
            1 => XfTexGenType::EmbossMapping,
            2 => XfTexGenType::ColorMapping1,
            3 => XfTexGenType::ColorMapping2,
            _ => XfTexGenType::Invalid,
        }
    }

    /// The code of this variant.
    pub fn into_bits(self) -> (r: u32)
        ensures
            r == xf_tex_gen_type_code(self),
    {
        match self {
            XfTexGenType::Regular => 0,
            XfTexGenType::EmbossMapping => 1,
            XfTexGenType::ColorMapping1 => 2,
            XfTexGenType::ColorMapping2 => 3,
            XfTexGenType::Invalid => 4,
        }
    }
}

/// The input of texture coordinate generation.
#[derive(Debug, Copy, Clone, PartialEq, Eq, Structural)]
pub enum XfSourceRow {
    VertexGeometry,
    Normals,
    Colors,
    BinormalT,
    BinormalB,
    Uv1,
    Uv2,
    Uv3,
    Uv4,
    Uv5,
    Uv6,
    Uv7,
    /// Fallback for codes that name no variant.
    Invalid,
}

/// The input of texture coordinate generation with code `v`.
pub open spec fn xf_source_row_of(v: u32) -> XfSourceRow {
    if v == 0 {
        XfSourceRow::VertexGeometry
    } else if v == 1 {
        XfSourceRow::Normals
    } else if v == 2 {
        XfSourceRow::Colors
    } else if v == 3 {
        XfSourceRow::BinormalT
    } else if v == 4 {
        XfSourceRow::BinormalB
    } else if v == 5 {
        XfSourceRow::Uv1
    } else if v == 6 {
        XfSourceRow::Uv2
    } else if v == 7 {
        XfSourceRow::Uv3
    } else if v == 8 {
        XfSourceRow::Uv4
    } else if v == 9 {
        XfSourceRow::Uv5
    } else if v == 10 {
        XfSourceRow::Uv6
    } else if v == 11 {
        XfSourceRow::Uv7
    } else {
        XfSourceRow::Invalid
    }
}

/// The codes that the file format assigns: each code stated here names the value
/// beside it, and every code not listed gives the value of the last line.
pub proof fn lemma_xf_source_row_codes()
    ensures
        xf_source_row_of(0) == XfSourceRow::VertexGeometry,
        xf_source_row_of(1) == XfSourceRow::Normals,
        xf_source_row_of(2) == XfSourceRow::Colors,
        xf_source_row_of(3) == XfSourceRow::BinormalT,
        xf_source_row_of(4) == XfSourceRow::BinormalB,
        xf_source_row_of(5) == XfSourceRow::Uv1,
        xf_source_row_of(6) == XfSourceRow::Uv2,
        xf_source_row_of(7) == XfSourceRow::Uv3,
        xf_source_row_of(8) == XfSourceRow::Uv4,
        xf_source_row_of(9) == XfSourceRow::Uv5,
        xf_source_row_of(10) == XfSourceRow::Uv6,
        xf_source_row_of(11) == XfSourceRow::Uv7,
        forall|v: u32| !(v == 0 || v == 1 || v == 2 || v == 3 || v == 4 || v == 5 || v == 6 || v == 7 || v == 8 || v == 9 || v == 10 || v == 11) ==> #[trigger] xf_source_row_of(v) == XfSourceRow::Invalid,
{
}

/// The code of `x`.
pub open spec fn xf_source_row_code(x: XfSourceRow) -> u32 {
    match x {
        XfSourceRow::VertexGeometry => 0,
        XfSourceRow::Normals => 1,
        XfSourceRow::Colors => 2,
        XfSourceRow::BinormalT => 3,
        XfSourceRow::BinormalB => 4,
        XfSourceRow::Uv1 => 5,
        XfSourceRow::Uv2 => 6,
        XfSourceRow::Uv3 => 7,
        XfSourceRow::Uv4 => 8,
        XfSourceRow::Uv5 => 9,
        XfSourceRow::Uv6 => 10,
        XfSourceRow::Uv7 => 11,
        XfSourceRow::Invalid => 12,
    }
}

impl XfSourceRow {
    /// The variant with code `v`; other codes give `Invalid`.
    pub fn from_bits(v: u32) -> (r: Self)
        ensures
            r == xf_source_row_of(v),
    {
        match v {
            0 => XfSourceRow::VertexGeometry,
            1 => XfSourceRow::Normals,
            2 => XfSourceRow::Colors,
            3 => XfSourceRow::BinormalT,
            4 => XfSourceRow::BinormalB,
            5 => XfSourceRow::Uv1,
            6 => XfSourceRow::Uv2,
            7 => XfSourceRow::Uv3,
            8 => XfSourceRow::Uv4,
            9 => XfSourceRow::Uv5,
            10 => XfSourceRow::Uv6,
            11 => XfSourceRow::Uv7,
            _ => XfSourceRow::Invalid,
        }
    }

    /// The code of this variant.
    pub fn into_bits(self) -> (r: u32)
        ensures
            r == xf_source_row_code(self),
    {
        match self {
            XfSourceRow::VertexGeometry => 0,
            XfSourceRow::Normals => 1,
            XfSourceRow::Colors => 2,
            XfSourceRow::BinormalT => 3,
            XfSourceRow::BinormalB => 4,
            XfSourceRow::Uv1 => 5,
            XfSourceRow::Uv2 => 6,
            XfSourceRow::Uv3 => 7,
            XfSourceRow::Uv4 => 8,
            XfSourceRow::Uv5 => 9,
            XfSourceRow::Uv6 => 10,
            XfSourceRow::Uv7 => 11,
            XfSourceRow::Invalid => 12,
        }
    }
}

/// How the coordinates of one texture are generated.
#[derive(Debug, Copy, Clone, PartialEq, Eq, Structural)]
pub struct XfSetPayload(pub u32);

impl XfSetPayload {
    /// The word this value is made of.
    pub open spec fn bits(&self) -> u32 {
        self.0
    }

    /// The value made of the word `bits`.
    pub fn from_bits(bits: u32) -> (r: Self)
        ensures
            r.bits() == bits,
    {
        XfSetPayload(bits)
    }

    /// The word this value is made of.
    pub fn into_bits(&self) -> (r: u32)
        ensures
            r == self.bits(),
    {
        self.0
    }

    /// Bit 1 of the word.
    pub fn projection(&self) -> (r: XfProjectionType)
        ensures
            r == xf_projection_type_of(field(self.bits(), 1, 0x1)),
    {
        XfProjectionType::from_bits(get_field(self.0, 1, 0x1))
    }

    /// Bit 2 of the word.
    pub fn input_form(&self) -> (r: XfInputForm)
        ensures
            r == xf_input_form_of(field(self.bits(), 2, 0x1)),
    {
        XfInputForm::from_bits(get_field(self.0, 2, 0x1))
    }

    /// Bits 4..7 of the word.
    pub fn tex_gen_type(&self) -> (r: XfTexGenType)
        ensures
            r == xf_tex_gen_type_of(field(self.bits(), 4, 0x7)),
    {
        XfTexGenType::from_bits(get_field(self.0, 4, 0x7))
    }

    /// Bits 7..12 of the word.
    pub fn source_row(&self) -> (r: XfSourceRow)
        ensures
            r == xf_source_row_of(field(self.bits(), 7, 0x1f)),
    {
        XfSourceRow::from_bits(get_field(self.0, 7, 0x1f))
    }

    /// Bits 12..15 of the word.
    pub fn used_gen_tex_coord(&self) -> (r: u8)
        ensures
            r == field(self.bits(), 12, 0x7),
    {
        get_field(self.0, 12, 0x7) as u8
    }

    /// Bits 15..18 of the word.
    pub fn used_light_index(&self) -> (r: u8)
        ensures
            r == field(self.bits(), 15, 0x7),
    {
        get_field(self.0, 15, 0x7) as u8
    }
}
/// One word written to the transform unit.
#[derive(Debug, Copy, Clone, PartialEq, Eq, Structural)]
pub enum LoadXfPayload {
    Size(XfSizePayload),
    /// A texture coordinate generation setting (`Set` in the hardware documentation).
    TexGen { tex_id: u8, payload: XfSetPayload },
    Unknown { tex_id: u8, payload: u32 },
}

/// Whether `address` is a transform unit register that this crate reads.
pub open spec fn xf_address_ok(address: u16) -> bool {
    address == 0x1008 || (0x1040 <= address <= 0x1047) || (0x1050 <= address <= 0x1057)
}

/// The word `w` written to the register at `address`.
pub open spec fn xf_load_of(address: u16, w: u32) -> LoadXfPayload {
    if address == 0x1008 {
        LoadXfPayload::Size(XfSizePayload(w))
    } else if 0x1040 <= address <= 0x1047 {
        LoadXfPayload::TexGen { tex_id: (address - 0x1040) as u8, payload: XfSetPayload(w) }
    } else {
        LoadXfPayload::Unknown { tex_id: (address - 0x1050) as u8, payload: w }
    }
}

/// The transform unit registers that are read: 0x1008 the size of the vertex, and
/// 0x1040 to 0x1047 the texture coordinate generation of textures 0 to 7.
pub proof fn lemma_xf_registers(w: u32)
    ensures
        xf_load_of(0x1008, w) == LoadXfPayload::Size(XfSizePayload(w)),
        forall|t: u16|
            t < 8 ==> #[trigger] xf_load_of((0x1040 + t) as u16, w) == (LoadXfPayload::TexGen {
                tex_id: t as u8,
                payload: XfSetPayload(w),
            }),
{
}

/// A run of words written to consecutive transform unit registers.
pub struct LoadXfOpCode {
    pub loads: Vec<LoadXfPayload>,
}

/// Where a `LoadXF` command can be read at `p` of `s`: its header, a register this
/// crate reads, and its words.
pub open spec fn load_xf_ok(s: Seq<u8>, p: int) -> bool {
    &&& can_read(s, p, 4)
    &&& xf_address_ok(u16_be(s, p + 2))
    &&& can_read(s, p + 4, 4 * (u16_be(s, p) + 1))
}

/// Whether `e` is the error that reading a `LoadXF` command at `p` of `s` gives where it
/// cannot be read: a corruption error for a register this crate does not read, else the
/// end of the input.
pub open spec fn load_xf_error(s: Seq<u8>, p: int, e: EditorError) -> bool {
    if can_read(s, p, 4) && !xf_address_ok(u16_be(s, p + 2)) {
        e is Corrupted
    } else {
        e is IoError
    }
}

/// Whether `op` is the `LoadXF` command stored at `p` of `s`.
pub open spec fn load_xf_is(s: Seq<u8>, p: int, op: LoadXfOpCode) -> bool {
    op.loads@ == Seq::new((u16_be(s, p) + 1) as nat, |k: int| xf_load_of(u16_be(s, p + 2), u32_be(s, p + 4 + 4 * k)))
}

impl Deserialize for LoadXfOpCode {
    fn deserialize(reader: &mut RefCursor) -> (r: EditorResult<Self>)
        ensures
            final(reader).bytes() == old(reader).bytes(),
            ({
                let s = old(reader).bytes();
                let p = old(reader).pos();
                match r {
                    Ok(op) => load_xf_ok(s, p) && load_xf_is(s, p, op) && final(reader).pos() == p + 4 + 4 * (
                    u16_be(s, p) + 1),
                    Err(e) => !load_xf_ok(s, p) && load_xf_error(s, p, e),
                }
            }),
    {
        let ghost s = reader.bytes();
        let ghost p = reader.pos();
        let transfer_size = reader.read_u16()?;
        let address = reader.read_u16()?;
        if !(address == 0x1008 || (address >= 0x1040 && address <= 0x1047) || (address >= 0x1050 && address <= 0x1057)) {
            return Err(
                corrupted(
                    reason_with_value(
                        "invalid XF register: ",
                        address as u64,
                        " (expected 0x1008, 0x1040..=0x1047 or 0x1050..=0x1057)",
                    ),
                    Some(reader.position()),
                ),
            );
        }
        let count: u32 = transfer_size as u32 + 1;
        let mut loads: Vec<LoadXfPayload> = Vec::new();
        let mut k: u32 = 0;
        while k < count
            invariant
                reader.bytes() == s,
                s == old(reader).bytes(),
                p == old(reader).pos(),
                can_read(s, p, 4),
                transfer_size == u16_be(s, p),
                address == u16_be(s, p + 2),
                xf_address_ok(address),
                count == transfer_size + 1,
                k <= count,
                can_read(s, p + 4, 4 * k),
                reader.pos() == p + 4 + 4 * k,
                loads@ == Seq::new(k as nat, |j: int| xf_load_of(address, u32_be(s, p + 4 + 4 * j))),
            decreases count - k,
        {
            let word = match reader.read_u32() {
                Ok(w) => w,
                Err(e) => {
                    return Err(e);
                },
            };
            let load = if address == 0x1008 {
                LoadXfPayload::Size(XfSizePayload::from_bits(word))
            } else if address >= 0x1040 && address <= 0x1047 {
                LoadXfPayload::TexGen { tex_id: (address - 0x1040) as u8, payload: XfSetPayload::from_bits(word) }
            } else {
                LoadXfPayload::Unknown { tex_id: (address - 0x1050) as u8, payload: word }
            };
            loads.push(load);
            k = k + 1;
            assert(loads@ =~= Seq::new(k as nat, |j: int| xf_load_of(address, u32_be(s, p + 4 + 4 * j))));
        }
        Ok(LoadXfOpCode { loads })
    }
}

/// Reading the code of a xf projection type back gives the same value.
pub proof fn lemma_xf_projection_type_code_roundtrip(x: XfProjectionType)
    ensures
        xf_projection_type_of(xf_projection_type_code(x)) == x,
{
}

/// Reading the code of a xf input form back gives the same value.
pub proof fn lemma_xf_input_form_code_roundtrip(x: XfInputForm)
    ensures
        xf_input_form_of(xf_input_form_code(x)) == x,
{
}

/// Reading the code of a xf tex gen type back gives the same value.
pub proof fn lemma_xf_tex_gen_type_code_roundtrip(x: XfTexGenType)
    ensures
        xf_tex_gen_type_of(xf_tex_gen_type_code(x)) == x,
{
}

/// Reading the code of a xf source row back gives the same value.
pub proof fn lemma_xf_source_row_code_roundtrip(x: XfSourceRow)
    ensures
        xf_source_row_of(xf_source_row_code(x)) == x,
{
}

} // verus!
