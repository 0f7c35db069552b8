//! The `LoadCP` opcode: writes to the registers of the command processor, which
//! describe how the attributes of each vertex are stored.
use vstd::prelude::*;

use crate::error::{corrupted, reason_with_value, EditorResult};
use crate::format::bits::{bit, field, get_bit, get_field};
use crate::format::encoding::Deserialize;
use crate::format::mdl0::colors::{color_format_of, ColorFormat};
use crate::format::mdl0::normals::{normal_format_of, NormalFormat};
use crate::format::mdl0::util::{vertex_format_of, VertexFormat};
use crate::shared::util::{can_read, u32_be, RefCursor};

verus! {

/// How an attribute of a vertex is stored.
#[derive(Debug, Copy, Clone, PartialEq, Eq, Structural)]
pub enum VectorStorage {
    /// Not present (also the fallback for codes that name no storage).
    NotPresent,
    /// The values themselves.
    Direct,
    /// An 8-bit index into a buffer.
    Index8,
    /// A 16-bit index into a buffer.
    Index16,
}

/// The storage with code `v`: 1 direct, 2 and 3 indexed, anything else not present.
pub open spec fn vector_storage_of(v: u32) -> VectorStorage {
    if v == 1 {
        VectorStorage::Direct
    } else if v == 2 {
        VectorStorage::Index8
    } else if v == 3 {
        VectorStorage::Index16
    } else {
        VectorStorage::NotPresent
    }
}

/// The codes that the file format assigns: each code stated here names the value
/// beside it, and every code not listed gives the value of the last line.
pub proof fn lemma_vector_storage_codes()
    ensures
        vector_storage_of(1) == VectorStorage::Direct,
        vector_storage_of(2) == VectorStorage::Index8,
        vector_storage_of(3) == VectorStorage::Index16,
        vector_storage_of(4) == VectorStorage::NotPresent,
        forall|v: u32| !(v == 1 || v == 2 || v == 3) ==> #[trigger] vector_storage_of(v) == VectorStorage::NotPresent,
{
}

impl VectorStorage {
    /// The storage with code `v`.
    pub fn from_bits(v: u32) -> (r: Self)
        ensures
            r == vector_storage_of(v),
    {
        match v {
            1 => VectorStorage::Direct,
            2 => VectorStorage::Index8,
            3 => VectorStorage::Index16,
            _ => VectorStorage::NotPresent,
        }
    }

    /// The code of this storage.
    pub fn into_bits(self) -> (r: u32)
        ensures
            r == (match self {
                VectorStorage::NotPresent => 0u32,
                VectorStorage::Direct => 1u32,
                VectorStorage::Index8 => 2u32,
                VectorStorage::Index16 => 3u32,
            }),
    {
        match self {
            VectorStorage::NotPresent => 0,
            VectorStorage::Direct => 1,
            VectorStorage::Index8 => 2,
            VectorStorage::Index16 => 3,
        }
    }
}

/// Vertex control descriptor, part 1 of 2: which attributes each vertex has.
#[derive(Debug, Copy, Clone, PartialEq, Eq, Structural)]
pub struct CpVcdLo(pub u32);

impl CpVcdLo {
    /// The word this value is made of.
    pub open spec fn bits(&self) -> u32 {
        self.0
    }

    /// The value made of the word `bits`.
    pub fn from_bits(bits: u32) -> (r: Self)
        ensures
            r.bits() == bits,
    {
        CpVcdLo(bits)
    }

    /// The word this value is made of.
    pub fn into_bits(&self) -> (r: u32)
        ensures
            r == self.bits(),
    {
        self.0
    }

    /// Whether each vertex has a position matrix index.
    pub fn pm(&self) -> (r: bool)
        ensures
            r == bit(self.bits(), 0),
    {
        get_bit(self.0, 0)
    }

    /// Whether each vertex has a matrix index for texture 0.
    pub fn tm0(&self) -> (r: bool)
        ensures
            r == bit(self.bits(), 1),
    {
        get_bit(self.0, 1)
    }

    /// Whether each vertex has a matrix index for texture 1.
    pub fn tm1(&self) -> (r: bool)
        ensures
            r == bit(self.bits(), 2),
    {
        get_bit(self.0, 2)
    }

    /// Whether each vertex has a matrix index for texture 2.
    pub fn tm2(&self) -> (r: bool)
        ensures
            r == bit(self.bits(), 3),
    {
        get_bit(self.0, 3)
    }

    /// Whether each vertex has a matrix index for texture 3.
    pub fn tm3(&self) -> (r: bool)
        ensures
            r == bit(self.bits(), 4),
    {
        get_bit(self.0, 4)
    }

    /// Whether each vertex has a matrix index for texture 4.
    pub fn tm4(&self) -> (r: bool)
        ensures
            r == bit(self.bits(), 5),
    {
        get_bit(self.0, 5)
    }

    /// Whether each vertex has a matrix index for texture 5.
    pub fn tm5(&self) -> (r: bool)
        ensures
            r == bit(self.bits(), 6),
    {
        get_bit(self.0, 6)
    }

    /// Whether each vertex has a matrix index for texture 6.
    pub fn tm6(&self) -> (r: bool)
        ensures
            r == bit(self.bits(), 7),
    {
        get_bit(self.0, 7)
    }

    /// Whether each vertex has a matrix index for texture 7.
    pub fn tm7(&self) -> (r: bool)
        ensures
            r == bit(self.bits(), 8),
    {
        get_bit(self.0, 8)
    }

    /// Bits 9..11 of the word.
    pub fn pos_storage(&self) -> (r: VectorStorage)
        ensures
            r == vector_storage_of(field(self.bits(), 9, 0x3)),
    {
        VectorStorage::from_bits(get_field(self.0, 9, 0x3))
    }

    /// Bits 11..13 of the word.
    pub fn norm_storage(&self) -> (r: VectorStorage)
        ensures
            r == vector_storage_of(field(self.bits(), 11, 0x3)),
    {
        VectorStorage::from_bits(get_field(self.0, 11, 0x3))
    }

    /// Bits 13..15 of the word.
    pub fn col0_storage(&self) -> (r: VectorStorage)
        ensures
            r == vector_storage_of(field(self.bits(), 13, 0x3)),
    {
        VectorStorage::from_bits(get_field(self.0, 13, 0x3))
    }

    /// Bits 15..17 of the word.
    pub fn col1_storage(&self) -> (r: VectorStorage)
        ensures
            r == vector_storage_of(field(self.bits(), 15, 0x3)),
    {
        VectorStorage::from_bits(get_field(self.0, 15, 0x3))
    }
}

/// Vertex control descriptor, part 2 of 2: how the texture coordinates are stored.
#[derive(Debug, Copy, Clone, PartialEq, Eq, Structural)]
pub struct CpVcdHi(pub u32);

impl CpVcdHi {
    /// The word this value is made of.
    pub open spec fn bits(&self) -> u32 {
        self.0
    }

    /// The value made of the word `bits`.
    pub fn from_bits(bits: u32) -> (r: Self)
        ensures
            r.bits() == bits,
    {
        CpVcdHi(bits)
    }

    /// The word this value is made of.
    pub fn into_bits(&self) -> (r: u32)
        ensures
            r == self.bits(),
    {
        self.0
    }

    /// Bits 0..2 of the word.
    pub fn uv0_storage(&self) -> (r: VectorStorage)
        ensures
            r == vector_storage_of(field(self.bits(), 0, 0x3)),
    {
        VectorStorage::from_bits(get_field(self.0, 0, 0x3))
    }

    /// Bits 2..4 of the word.
    pub fn uv1_storage(&self) -> (r: VectorStorage)
        ensures
            r == vector_storage_of(field(self.bits(), 2, 0x3)),
    {
        VectorStorage::from_bits(get_field(self.0, 2, 0x3))
    }

    /// Bits 4..6 of the word.
    pub fn uv2_storage(&self) -> (r: VectorStorage)
        ensures
            r == vector_storage_of(field(self.bits(), 4, 0x3)),
    {
        VectorStorage::from_bits(get_field(self.0, 4, 0x3))
    }

    /// Bits 6..8 of the word.
    pub fn uv3_storage(&self) -> (r: VectorStorage)
        ensures
            r == vector_storage_of(field(self.bits(), 6, 0x3)),
    {
        VectorStorage::from_bits(get_field(self.0, 6, 0x3))
    }

    /// Bits 8..10 of the word.
    pub fn uv4_storage(&self) -> (r: VectorStorage)
        ensures
            r == vector_storage_of(field(self.bits(), 8, 0x3)),
    {
        VectorStorage::from_bits(get_field(self.0, 8, 0x3))
    }

    /// Bits 10..12 of the word.
    pub fn uv5_storage(&self) -> (r: VectorStorage)
        ensures
            r == vector_storage_of(field(self.bits(), 10, 0x3)),
    {
        VectorStorage::from_bits(get_field(self.0, 10, 0x3))
    }

    /// Bits 12..14 of the word.
    pub fn uv6_storage(&self) -> (r: VectorStorage)
        ensures
            r == vector_storage_of(field(self.bits(), 12, 0x3)),
    {
        VectorStorage::from_bits(get_field(self.0, 12, 0x3))
    }

    /// Bits 14..16 of the word.
    pub fn uv7_storage(&self) -> (r: VectorStorage)
        ensures
            r == vector_storage_of(field(self.bits(), 14, 0x3)),
    {
        VectorStorage::from_bits(get_field(self.0, 14, 0x3))
    }
}

/// Vertex attribute table, part 1 of 3.
#[derive(Debug, Copy, Clone, PartialEq, Eq, Structural)]
pub struct CpVatA(pub u32);

impl CpVatA {
    /// The word this value is made of.
    pub open spec fn bits(&self) -> u32 {
        self.0
    }

    /// The value made of the word `bits`.
    pub fn from_bits(bits: u32) -> (r: Self)
        ensures
            r.bits() == bits,
    {
        CpVatA(bits)
    }

    /// The word this value is made of.
    pub fn into_bits(&self) -> (r: u32)
        ensures
            r == self.bits(),
    {
        self.0
    }

    /// Bit 0 of the word.
    pub fn pos_extended(&self) -> (r: bool)
        ensures
            r == bit(self.bits(), 0),
    {
        get_bit(self.0, 0)
    }

    /// Bits 1..4 of the word.
    pub fn pos_format(&self) -> (r: VertexFormat)
        ensures
            r == vertex_format_of(field(self.bits(), 1, 0x7)),
    {
        VertexFormat::from_bits(get_field(self.0, 1, 0x7) as u8)
    }

    /// Bits 4..9 of the word.
    pub fn pos_divisor(&self) -> (r: u8)
        ensures
            r == field(self.bits(), 4, 0x1f),
    {
        get_field(self.0, 4, 0x1f) as u8
    }

    /// Bit 9 of the word.
    pub fn norm_extended(&self) -> (r: bool)
        ensures
            r == bit(self.bits(), 9),
    {
        get_bit(self.0, 9)
    }

    /// Bits 10..13 of the word.
    pub fn norm_format(&self) -> (r: NormalFormat)
        ensures
            r == normal_format_of(field(self.bits(), 10, 0x7)),
    {
        NormalFormat::from_bits(get_field(self.0, 10, 0x7) as u8)
    }

    /// Bit 13 of the word.
    pub fn col0_extended(&self) -> (r: bool)
        ensures
            r == bit(self.bits(), 13),
    {
        get_bit(self.0, 13)
    }

    /// Bits 14..17: the format of color 0, which must be a code of a color format.
    pub fn col0_format(&self) -> (r: EditorResult<ColorFormat>)
        ensures
            match r {
                Ok(v) => field(self.bits(), 14, 0x7) <= 5 && v == color_format_of(field(self.bits(), 14, 0x7)),
                Err(e) => field(self.bits(), 14, 0x7) > 5 && e is Corrupted,
            },
    {
        ColorFormat::try_from(get_field(self.0, 14, 0x7))
    }

    /// Bit 17 of the word.
    pub fn col1_extended(&self) -> (r: bool)
        ensures
            r == bit(self.bits(), 17),
    {
        get_bit(self.0, 17)
    }

    /// Bits 18..21: the format of color 1, which must be a code of a color format.
    pub fn col1_format(&self) -> (r: EditorResult<ColorFormat>)
        ensures
            match r {
                Ok(v) => field(self.bits(), 18, 0x7) <= 5 && v == color_format_of(field(self.bits(), 18, 0x7)),
                Err(e) => field(self.bits(), 18, 0x7) > 5 && e is Corrupted,
            },
    {
        ColorFormat::try_from(get_field(self.0, 18, 0x7))
    }

    /// Bit 21 of the word.
    pub fn uv0_extended(&self) -> (r: bool)
        ensures
            r == bit(self.bits(), 21),
    {
        get_bit(self.0, 21)
    }

    /// Bits 22..25 of the word.
    pub fn uv0_format(&self) -> (r: VertexFormat)
        ensures
            r == vertex_format_of(field(self.bits(), 22, 0x7)),
    {
        VertexFormat::from_bits(get_field(self.0, 22, 0x7) as u8)
    }

    /// Bits 25..30 of the word.
    pub fn uv0_divisor(&self) -> (r: u8)
        ensures
            r == field(self.bits(), 25, 0x1f),
    {
        get_field(self.0, 25, 0x1f) as u8
    }

    /// Bit 30 of the word.
    pub fn dequant(&self) -> (r: bool)
        ensures
            r == bit(self.bits(), 30),
    {
        get_bit(self.0, 30)
    }

    /// Where this and `norm_extended` are set, normals are indexed by three separate indices; where only `norm_extended` is, they are nine consecutive values.
    pub fn norm_i3(&self) -> (r: bool)
        ensures
            r == bit(self.bits(), 31),
    {
        get_bit(self.0, 31)
    }
}

/// Vertex attribute table, part 2 of 3.
#[derive(Debug, Copy, Clone, PartialEq, Eq, Structural)]
pub struct CpVatB(pub u32);

impl CpVatB {
    /// The word this value is made of.
    pub open spec fn bits(&self) -> u32 {
        self.0
    }

    /// The value made of the word `bits`.
    pub fn from_bits(bits: u32) -> (r: Self)
        ensures
            r.bits() == bits,
    {
        CpVatB(bits)
    }

    /// The word this value is made of.
    pub fn into_bits(&self) -> (r: u32)
        ensures
            r == self.bits(),
    {
        self.0
    }

    /// Bit 0 of the word.
    pub fn uv1_extended(&self) -> (r: bool)
        ensures
            r == bit(self.bits(), 0),
    {
        get_bit(self.0, 0)
    }

    /// Bits 1..4 of the word.
    pub fn uv1_format(&self) -> (r: VertexFormat)
        ensures
            r == vertex_format_of(field(self.bits(), 1, 0x7)),
    {
        VertexFormat::from_bits(get_field(self.0, 1, 0x7) as u8)
    }

    /// Bits 4..9 of the word.
    pub fn uv1_divisor(&self) -> (r: u8)
        ensures
            r == field(self.bits(), 4, 0x1f),
    {
        get_field(self.0, 4, 0x1f) as u8
    }

    /// Bit 9 of the word.
    pub fn uv2_extended(&self) -> (r: bool)
        ensures
            r == bit(self.bits(), 9),
    {
        get_bit(self.0, 9)
    }

    /// Bits 10..13 of the word.
    pub fn uv2_format(&self) -> (r: VertexFormat)
        ensures
            r == vertex_format_of(field(self.bits(), 10, 0x7)),
    {
        VertexFormat::from_bits(get_field(self.0, 10, 0x7) as u8)
    }

    /// Bits 13..18 of the word.
    pub fn uv2_divisor(&self) -> (r: u8)
        ensures
            r == field(self.bits(), 13, 0x1f),
    {
        get_field(self.0, 13, 0x1f) as u8
    }

    /// Bit 18 of the word.
    pub fn uv3_extended(&self) -> (r: bool)
        ensures
            r == bit(self.bits(), 18),
    {
        get_bit(self.0, 18)
    }

    /// Bits 19..22 of the word.
    pub fn uv3_format(&self) -> (r: VertexFormat)
        ensures
            r == vertex_format_of(field(self.bits(), 19, 0x7)),
    {
        VertexFormat::from_bits(get_field(self.0, 19, 0x7) as u8)
    }

    /// Bits 22..27 of the word.
    pub fn uv3_divisor(&self) -> (r: u8)
        ensures
            r == field(self.bits(), 22, 0x1f),
    {
        get_field(self.0, 22, 0x1f) as u8
    }

    /// Bit 27 of the word.
    pub fn uv4_extended(&self) -> (r: bool)
        ensures
            r == bit(self.bits(), 27),
    {
        get_bit(self.0, 27)
    }

    /// Bits 28..31 of the word.
    pub fn uv4_format(&self) -> (r: VertexFormat)
        ensures
            r == vertex_format_of(field(self.bits(), 28, 0x7)),
    {
        VertexFormat::from_bits(get_field(self.0, 28, 0x7) as u8)
    }
}

/// Vertex attribute table, part 3 of 3.
#[derive(Debug, Copy, Clone, PartialEq, Eq, Structural)]
pub struct CpVatC(pub u32);

impl CpVatC {
    /// The word this value is made of.
    pub open spec fn bits(&self) -> u32 {
        self.0
    }

    /// The value made of the word `bits`.
    pub fn from_bits(bits: u32) -> (r: Self)
        ensures
            r.bits() == bits,
    {
        CpVatC(bits)
    }

    /// The word this value is made of.
    pub fn into_bits(&self) -> (r: u32)
        ensures
            r == self.bits(),
    {
        self.0
    }

    /// Bits 0..5 of the word.
    pub fn uv4_divisor(&self) -> (r: u8)
        ensures
            r == field(self.bits(), 0, 0x1f),
    {
        get_field(self.0, 0, 0x1f) as u8
    }

    /// Bit 5 of the word.
    pub fn uv5_extended(&self) -> (r: bool)
        ensures
            r == bit(self.bits(), 5),
    {
        get_bit(self.0, 5)
    }

    /// Bits 6..9 of the word.
    pub fn uv5_format(&self) -> (r: VertexFormat)
        ensures
            r == vertex_format_of(field(self.bits(), 6, 0x7)),
    {
        VertexFormat::from_bits(get_field(self.0, 6, 0x7) as u8)
    }

    /// Bits 9..14 of the word.
    pub fn uv5_divisor(&self) -> (r: u8)
        ensures
            r == field(self.bits(), 9, 0x1f),
    {
        get_field(self.0, 9, 0x1f) as u8
    }

    /// Bit 14 of the word.
    pub fn uv6_extended(&self) -> (r: bool)
        ensures
            r == bit(self.bits(), 14),
    {
        get_bit(self.0, 14)
    }

    /// Bits 15..18 of the word.
    pub fn uv6_format(&self) -> (r: VertexFormat)
        ensures
            r == vertex_format_of(field(self.bits(), 15, 0x7)),
    {
        VertexFormat::from_bits(get_field(self.0, 15, 0x7) as u8)
    }

    /// Bits 18..23 of the word.
    pub fn uv6_divisor(&self) -> (r: u8)
        ensures
            r == field(self.bits(), 18, 0x1f),
    {
        get_field(self.0, 18, 0x1f) as u8
    }

    /// Bit 23 of the word.
    pub fn uv7_extended(&self) -> (r: bool)
        ensures
            r == bit(self.bits(), 23),
    {
        get_bit(self.0, 23)
    }

    /// Bits 24..27 of the word.
    pub fn uv7_format(&self) -> (r: VertexFormat)
        ensures
            r == vertex_format_of(field(self.bits(), 24, 0x7)),
    {
        VertexFormat::from_bits(get_field(self.0, 24, 0x7) as u8)
    }

    /// Bits 27..32 of the word.
    pub fn uv7_divisor(&self) -> (r: u8)
        ensures
            r == field(self.bits(), 27, 0x1f),
    {
        get_field(self.0, 27, 0x1f) as u8
    }
}

/// A write to a command processor register.
#[derive(Debug, Copy, Clone, PartialEq, Eq, Structural)]
pub enum LoadCpOpCode {
    VcdLo(CpVcdLo),
    VcdHi(CpVcdHi),
    VatA(CpVatA),
    VatB(CpVatB),
    VatC(CpVatC),
}

/// The register write with subcommand `b` and value `w`, where `b` names a register.
pub open spec fn load_cp_of(b: u8, w: u32) -> Option<LoadCpOpCode> {
    if b == 0x50 {
        Some(LoadCpOpCode::VcdLo(CpVcdLo(w)))
    } else if b == 0x60 {
        Some(LoadCpOpCode::VcdHi(CpVcdHi(w)))
    } else if b == 0x70 {
        Some(LoadCpOpCode::VatA(CpVatA(w)))
    } else if b == 0x80 {
        Some(LoadCpOpCode::VatB(CpVatB(w)))
    } else if b == 0x90 {
        Some(LoadCpOpCode::VatC(CpVatC(w)))
    } else {
        None
    }
}

/// The register addresses of the command processor that are read: 0x50 the low and
/// 0x60 the high vertex descriptor, 0x70, 0x80 and 0x90 the vertex attribute tables
/// A, B and C; no other address is.
pub proof fn lemma_load_cp_registers(w: u32)
    ensures
        load_cp_of(0x50, w) == Some(LoadCpOpCode::VcdLo(CpVcdLo(w))),
        load_cp_of(0x60, w) == Some(LoadCpOpCode::VcdHi(CpVcdHi(w))),
        load_cp_of(0x70, w) == Some(LoadCpOpCode::VatA(CpVatA(w))),
        load_cp_of(0x80, w) == Some(LoadCpOpCode::VatB(CpVatB(w))),
        load_cp_of(0x90, w) == Some(LoadCpOpCode::VatC(CpVatC(w))),
        forall|b: u8|
            !(b == 0x50 || b == 0x60 || b == 0x70 || b == 0x80 || b == 0x90) ==> #[trigger] load_cp_of(b, w) is None,
{
}

impl Deserialize for LoadCpOpCode {
    fn deserialize(reader: &mut RefCursor) -> (r: EditorResult<Self>)
        ensures
            final(reader).bytes() == old(reader).bytes(),
            ({
                let s = old(reader).bytes();
                let p = old(reader).pos();
                match r {
                    Ok(op) => can_read(s, p, 5) && load_cp_of(s[p], u32_be(s, p + 1)) == Some(op)
                        && final(reader).pos() == p + 5,
                    Err(e) => if !can_read(s, p, 5) {
                        e is IoError
                    } else {
                        load_cp_of(s[p], u32_be(s, p + 1)) is None && e is Corrupted
                    },
                }
            }),
    {
        let byte = reader.read_u8()?;
        let word = reader.read_u32()?;
        match byte {
            0x50 => Ok(LoadCpOpCode::VcdLo(CpVcdLo::from_bits(word))),
            0x60 => Ok(LoadCpOpCode::VcdHi(CpVcdHi::from_bits(word))),
            0x70 => Ok(LoadCpOpCode::VatA(CpVatA::from_bits(word))),
            0x80 => Ok(LoadCpOpCode::VatB(CpVatB::from_bits(word))),
            0x90 => Ok(LoadCpOpCode::VatC(CpVatC::from_bits(word))),
            _ => Err(corrupted(reason_with_value("invalid LoadCP subcommand: ", byte as u64, ""), None)),
        }
    }
}

} // verus!
