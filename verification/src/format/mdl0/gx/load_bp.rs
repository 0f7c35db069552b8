//! The `LoadBP` opcode: writes to the registers of the blitting processor, which
//! holds the texture environment and blending state of a material.
use vstd::prelude::*;

use crate::error::{corrupted, reason_with_value, unsupported, EditorError, EditorResult};
use crate::format::bits::{bit, field, get_bit, get_field};
use crate::format::encoding::Deserialize;
use crate::shared::util::{can_read, u24_be, RefCursor};

verus! {

/// Which texture maps and coordinates the indirect stages use.
#[derive(Debug, Copy, Clone, PartialEq, Eq, Structural)]
pub struct SetIndirectTexture(pub u32);

impl SetIndirectTexture {
    /// The word this value is made of.
    pub open spec fn bits(&self) -> u32 {
        self.0
    }

    /// The value made of the word `bits`.
    pub fn from_bits(bits: u32) -> (r: Self)
        ensures
            r.bits() == bits,
    {
        SetIndirectTexture(bits)
    }

    /// The word this value is made of.
    pub fn into_bits(&self) -> (r: u32)
        ensures
            r == self.bits(),
    {
        self.0
    }

    /// Bits 0..3 of the word.
    pub fn map0(&self) -> (r: u8)
        ensures
            r == field(self.bits(), 0, 0x7),
    {
        get_field(self.0, 0, 0x7) as u8
    }

    /// Bits 3..6 of the word.
    pub fn coord0(&self) -> (r: u8)
        ensures
            r == field(self.bits(), 3, 0x7),
    {
        get_field(self.0, 3, 0x7) as u8
    }

    /// Bits 6..9 of the word.
    pub fn map1(&self) -> (r: u8)
        ensures
            r == field(self.bits(), 6, 0x7),
    {
        get_field(self.0, 6, 0x7) as u8
    }

    /// Bits 9..12 of the word.
    pub fn coord1(&self) -> (r: u8)
        ensures
            r == field(self.bits(), 9, 0x7),
    {
        get_field(self.0, 9, 0x7) as u8
    }

    /// Bits 12..15 of the word.
    pub fn map2(&self) -> (r: u8)
        ensures
            r == field(self.bits(), 12, 0x7),
    {
        get_field(self.0, 12, 0x7) as u8
    }

    /// Bits 15..18 of the word.
    pub fn coord2(&self) -> (r: u8)
        ensures
            r == field(self.bits(), 15, 0x7),
    {
        get_field(self.0, 15, 0x7) as u8
    }

    /// Bits 18..21 of the word.
    pub fn map3(&self) -> (r: u8)
        ensures
            r == field(self.bits(), 18, 0x7),
    {
        get_field(self.0, 18, 0x7) as u8
    }

    /// Bits 21..24 of the word.
    pub fn coord3(&self) -> (r: u8)
        ensures
            r == field(self.bits(), 21, 0x7),
    {
        get_field(self.0, 21, 0x7) as u8
    }
}

/// A constant rasterized color.
#[derive(Debug, Copy, Clone, PartialEq, Eq, Structural)]
pub enum RasConstant {
    Col0,
    Col1,
    AlphaBump,
    AlphaBumpCorrected,
    Zero,
    /// Fallback for codes that name no variant.
    Invalid,
}

/// The constant rasterized color with code `v`.
pub open spec fn ras_constant_of(v: u32) -> RasConstant {
    if v == 0 {
        RasConstant::Col0
    } else if v == 1 {
        RasConstant::Col1
    } else if v == 5 {
        RasConstant::AlphaBump
    } else if v == 6 {
        RasConstant::AlphaBumpCorrected
    } else if v == 7 {
        RasConstant::Zero
    } else {
        RasConstant::Invalid
    }
}

/// The codes that the file format assigns: each code stated here names the value
/// beside it, and every code not listed gives the value of the last line.
pub proof fn lemma_ras_constant_codes()
    ensures
        ras_constant_of(0) == RasConstant::Col0,
        ras_constant_of(1) == RasConstant::Col1,
        ras_constant_of(5) == RasConstant::AlphaBump,
        ras_constant_of(6) == RasConstant::AlphaBumpCorrected,
        ras_constant_of(7) == RasConstant::Zero,
        forall|v: u32| !(v == 0 || v == 1 || v == 5 || v == 6 || v == 7) ==> #[trigger] ras_constant_of(v) == RasConstant::Invalid,
{
}

/// The code of `x`.
pub open spec fn ras_constant_code(x: RasConstant) -> u32 {
    match x {
        RasConstant::Col0 => 0,
        RasConstant::Col1 => 1,
        RasConstant::AlphaBump => 5,
        RasConstant::AlphaBumpCorrected => 6,
        RasConstant::Zero => 7,
        RasConstant::Invalid => 8,
    }
}

impl RasConstant {
    /// The variant with code `v`; other codes give `Invalid`.
    pub fn from_bits(v: u32) -> (r: Self)
        ensures
            r == ras_constant_of(v),
    {
        match v {
            0 => RasConstant::Col0,
            1 => RasConstant::Col1,
            5 => RasConstant::AlphaBump,
            6 => RasConstant::AlphaBumpCorrected,
            7 => RasConstant::Zero,
            _ => RasConstant::Invalid,
        }
    }

    /// The code of this variant.
    pub fn into_bits(self) -> (r: u32)
        ensures
            r == ras_constant_code(self),
    {
        match self {
            RasConstant::Col0 => 0,
            RasConstant::Col1 => 1,
            RasConstant::AlphaBump => 5,
            RasConstant::AlphaBumpCorrected => 6,
            RasConstant::Zero => 7,
            RasConstant::Invalid => 8,
        }
    }
}

/// How two texture stages read their textures.
#[derive(Debug, Copy, Clone, PartialEq, Eq, Structural)]
pub struct TextureReadSettings(pub u32);

impl TextureReadSettings {
    /// The word this value is made of.
    pub open spec fn bits(&self) -> u32 {
        self.0
    }

    /// The value made of the word `bits`.
    pub fn from_bits(bits: u32) -> (r: Self)
        ensures
            r.bits() == bits,
    {
        TextureReadSettings(bits)
    }

    /// The word this value is made of.
    pub fn into_bits(&self) -> (r: u32)
        ensures
            r == self.bits(),
    {
        self.0
    }

    /// Bit 6 of the word.
    pub fn tex0_e(&self) -> (r: bool)
        ensures
            r == bit(self.bits(), 6),
    {
        get_bit(self.0, 6)
    }

    /// Bits 7..10 of the word.
    pub fn ras0_value(&self) -> (r: RasConstant)
        ensures
            r == ras_constant_of(field(self.bits(), 7, 0x7)),
    {
        RasConstant::from_bits(get_field(self.0, 7, 0x7))
    }

    /// Bit 18 of the word.
    pub fn tex1_e(&self) -> (r: bool)
        ensures
            r == bit(self.bits(), 18),
    {
        get_bit(self.0, 18)
    }

    /// Bits 19..22 of the word.
    pub fn ras1_value(&self) -> (r: RasConstant)
        ensures
            r == ras_constant_of(field(self.bits(), 19, 0x7)),
    {
        RasConstant::from_bits(get_field(self.0, 19, 0x7))
    }
}

/// Settings of the depth test.
#[derive(Debug, Copy, Clone, PartialEq, Eq, Structural)]
pub struct DepthTest(pub u32);

impl DepthTest {
    /// The word this value is made of.
    pub open spec fn bits(&self) -> u32 {
        self.0
    }

    /// The value made of the word `bits`.
    pub fn from_bits(bits: u32) -> (r: Self)
        ensures
            r.bits() == bits,
    {
        DepthTest(bits)
    }

    /// The word this value is made of.
    pub fn into_bits(&self) -> (r: u32)
        ensures
            r == self.bits(),
    {
        self.0
    }

    /// Bit 0 of the word.
    pub fn enable_depth_test(&self) -> (r: bool)
        ensures
            r == bit(self.bits(), 0),
    {
        get_bit(self.0, 0)
    }

    /// Bits 1..4 of the word.
    pub fn depth_function(&self) -> (r: AlphaCompare)
        ensures
            r == alpha_compare_of(field(self.bits(), 1, 0x7)),
    {
        AlphaCompare::from_bits(get_field(self.0, 1, 0x7))
    }

    /// Bit 4 of the word.
    pub fn enable_depth_write(&self) -> (r: bool)
        ensures
            r == bit(self.bits(), 4),
    {
        get_bit(self.0, 4)
    }
}

/// A factor of the blend equation.
#[derive(Debug, Copy, Clone, PartialEq, Eq, Structural)]
pub enum BlendFactor {
    Zero,
    One,
    SourceColor,
    InverseSourceColor,
    SourceAlpha,
    InverseSourceAlpha,
    DestinationAlpha,
    InverseDestinationAlpha,
    /// Fallback for codes that name no variant.
    Invalid,
}

/// The factor of the blend equation with code `v`.
pub open spec fn blend_factor_of(v: u32) -> BlendFactor {
    if v == 0 {
        BlendFactor::Zero
    } else if v == 1 {
        BlendFactor::One
    } else if v == 2 {
        BlendFactor::SourceColor
    } else if v == 3 {
        BlendFactor::InverseSourceColor
    } else if v == 4 {
        BlendFactor::SourceAlpha
    } else if v == 5 {
        BlendFactor::InverseSourceAlpha
    } else if v == 6 {
        BlendFactor::DestinationAlpha
    } else if v == 7 {
        BlendFactor::InverseDestinationAlpha
    } else {
        BlendFactor::Invalid
    }
}

/// The codes that the file format assigns: each code stated here names the value
/// beside it, and every code not listed gives the value of the last line.
pub proof fn lemma_blend_factor_codes()
    ensures
        blend_factor_of(0) == BlendFactor::Zero,
        blend_factor_of(1) == BlendFactor::One,
        blend_factor_of(2) == BlendFactor::SourceColor,
        blend_factor_of(3) == BlendFactor::InverseSourceColor,
        blend_factor_of(4) == BlendFactor::SourceAlpha,
        blend_factor_of(5) == BlendFactor::InverseSourceAlpha,
        blend_factor_of(6) == BlendFactor::DestinationAlpha,
        blend_factor_of(7) == BlendFactor::InverseDestinationAlpha,
        forall|v: u32| !(v == 0 || v == 1 || v == 2 || v == 3 || v == 4 || v == 5 || v == 6 || v == 7) ==> #[trigger] blend_factor_of(v) == BlendFactor::Invalid,
{
}

/// The code of `x`.
pub open spec fn blend_factor_code(x: BlendFactor) -> u32 {
    match x {
        BlendFactor::Zero => 0,
        BlendFactor::One => 1,
        BlendFactor::SourceColor => 2,
        BlendFactor::InverseSourceColor => 3,
        BlendFactor::SourceAlpha => 4,
        BlendFactor::InverseSourceAlpha => 5,
        BlendFactor::DestinationAlpha => 6,
        BlendFactor::InverseDestinationAlpha => 7,
        BlendFactor::Invalid => 8,
    }
}

impl BlendFactor {
    /// The variant with code `v`; other codes give `Invalid`.
    pub fn from_bits(v: u32) -> (r: Self)
        ensures
            r == blend_factor_of(v),
    {
        match v {
            0 => BlendFactor::Zero,
            1 => BlendFactor::One,
            2 => BlendFactor::SourceColor,
            3 => BlendFactor::InverseSourceColor,
            4 => BlendFactor::SourceAlpha,
            5 => BlendFactor::InverseSourceAlpha,
            6 => BlendFactor::DestinationAlpha,
            7 => BlendFactor::InverseDestinationAlpha,
            _ => BlendFactor::Invalid,
        }
    }

    /// The code of this variant.
    pub fn into_bits(self) -> (r: u32)
        ensures
            r == blend_factor_code(self),
    {
        match self {
            BlendFactor::Zero => 0,
            BlendFactor::One => 1,
            BlendFactor::SourceColor => 2,
            BlendFactor::InverseSourceColor => 3,
            BlendFactor::SourceAlpha => 4,
            BlendFactor::InverseSourceAlpha => 5,
            BlendFactor::DestinationAlpha => 6,
            BlendFactor::InverseDestinationAlpha => 7,
            BlendFactor::Invalid => 8,
        }
    }
}

/// A logic operation on the color buffer.
#[derive(Debug, Copy, Clone, PartialEq, Eq, Structural)]
pub enum LogicOp {
    Clear,
    And,
    ReverseAnd,
    Copy,
    InverseAnd,
    NoOp,
    Xor,
    Or,
    Nor,
    Equivalent,
    Inverse,
    ReverseOr,
    InverseCopy,
    InverseOr,
    Nand,
    /// Sets every bit (`Set` in the hardware documentation).
    SetAll,
    /// Fallback for codes that name no variant.
    Invalid,
}

/// The logic operation on the color buffer with code `v`.
pub open spec fn logic_op_of(v: u32) -> LogicOp {
    if v == 0 {
        LogicOp::Clear
    } else if v == 1 {
        LogicOp::And
    } else if v == 2 {
        LogicOp::ReverseAnd
    } else if v == 3 {
        LogicOp::Copy
    } else if v == 4 {
        LogicOp::InverseAnd
    } else if v == 5 {
        LogicOp::NoOp
    } else if v == 6 {
        LogicOp::Xor
    } else if v == 7 {
        LogicOp::Or
    } else if v == 8 {
        LogicOp::Nor
    } else if v == 9 {
        LogicOp::Equivalent
    } else if v == 10 {
        LogicOp::Inverse
    } else if v == 11 {
        LogicOp::ReverseOr
    } else if v == 12 {
        LogicOp::InverseCopy
    } else if v == 13 {
        LogicOp::InverseOr
    } else if v == 14 {
        LogicOp::Nand
    } else if v == 15 {
        LogicOp::SetAll
    } else {
        LogicOp::Invalid
    }
}

/// The codes that the file format assigns: each code stated here names the value
/// beside it, and every code not listed gives the value of the last line.
pub proof fn lemma_logic_op_codes()
    ensures
        logic_op_of(0) == LogicOp::Clear,
        logic_op_of(1) == LogicOp::And,
        logic_op_of(2) == LogicOp::ReverseAnd,
        logic_op_of(3) == LogicOp::Copy,
        logic_op_of(4) == LogicOp::InverseAnd,
        logic_op_of(5) == LogicOp::NoOp,
        logic_op_of(6) == LogicOp::Xor,
        logic_op_of(7) == LogicOp::Or,
        logic_op_of(8) == LogicOp::Nor,
        logic_op_of(9) == LogicOp::Equivalent,
        logic_op_of(10) == LogicOp::Inverse,
        logic_op_of(11) == LogicOp::ReverseOr,
        logic_op_of(12) == LogicOp::InverseCopy,
        logic_op_of(13) == LogicOp::InverseOr,
        logic_op_of(14) == LogicOp::Nand,
        logic_op_of(15) == LogicOp::SetAll,
        forall|v: u32| !(v == 0 || v == 1 || v == 2 || v == 3 || v == 4 || v == 5 || v == 6 || v == 7 || v == 8 || v == 9 || v == 10 || v == 11 || v == 12 || v == 13 || v == 14 || v == 15) ==> #[trigger] logic_op_of(v) == LogicOp::Invalid,
{
}

/// The code of `x`.
pub open spec fn logic_op_code(x: LogicOp) -> u32 {
    match x {
        LogicOp::Clear => 0,
        LogicOp::And => 1,
        LogicOp::ReverseAnd => 2,
        LogicOp::Copy => 3,
        LogicOp::InverseAnd => 4,
        LogicOp::NoOp => 5,
        LogicOp::Xor => 6,
        LogicOp::Or => 7,
        LogicOp::Nor => 8,
        LogicOp::Equivalent => 9,
        LogicOp::Inverse => 10,
        LogicOp::ReverseOr => 11,
        LogicOp::InverseCopy => 12,
        LogicOp::InverseOr => 13,
        LogicOp::Nand => 14,
        LogicOp::SetAll => 15,
        LogicOp::Invalid => 16,
    }
}

impl LogicOp {
    /// The variant with code `v`; other codes give `Invalid`.
    pub fn from_bits(v: u32) -> (r: Self)
        ensures
            r == logic_op_of(v),
    {
        match v {
            0 => LogicOp::Clear,
            1 => LogicOp::And,
            2 => LogicOp::ReverseAnd,
            3 => LogicOp::Copy,
            4 => LogicOp::InverseAnd,
            5 => LogicOp::NoOp,
            6 => LogicOp::Xor,
            7 => LogicOp::Or,
            8 => LogicOp::Nor,
            9 => LogicOp::Equivalent,
            10 => LogicOp::Inverse,
            11 => LogicOp::ReverseOr,
            12 => LogicOp::InverseCopy,
            13 => LogicOp::InverseOr,
            14 => LogicOp::Nand,
            15 => LogicOp::SetAll,
            _ => LogicOp::Invalid,
        }
    }

    /// The code of this variant.
    pub fn into_bits(self) -> (r: u32)
        ensures
            r == logic_op_code(self),
    {
        match self {
            LogicOp::Clear => 0,
            LogicOp::And => 1,
            LogicOp::ReverseAnd => 2,
            LogicOp::Copy => 3,
            LogicOp::InverseAnd => 4,
            LogicOp::NoOp => 5,
            LogicOp::Xor => 6,
            LogicOp::Or => 7,
            LogicOp::Nor => 8,
            LogicOp::Equivalent => 9,
            LogicOp::Inverse => 10,
            LogicOp::ReverseOr => 11,
            LogicOp::InverseCopy => 12,
            LogicOp::InverseOr => 13,
            LogicOp::Nand => 14,
            LogicOp::SetAll => 15,
            LogicOp::Invalid => 16,
        }
    }
}

/// How fragments are blended into the color buffer.
#[derive(Debug, Copy, Clone, PartialEq, Eq, Structural)]
pub struct BlendMode(pub u32);

impl BlendMode {
    /// The word this value is made of.
    pub open spec fn bits(&self) -> u32 {
        self.0
    }

    /// The value made of the word `bits`.
    pub fn from_bits(bits: u32) -> (r: Self)
        ensures
            r.bits() == bits,
    {
        BlendMode(bits)
    }

    /// The word this value is made of.
    pub fn into_bits(&self) -> (r: u32)
        ensures
            r == self.bits(),
    {
        self.0
    }

    /// Bit 0 of the word.
    pub fn enable_blend(&self) -> (r: bool)
        ensures
            r == bit(self.bits(), 0),
    {
        get_bit(self.0, 0)
    }

    /// Bit 1 of the word.
    pub fn enable_logic(&self) -> (r: bool)
        ensures
            r == bit(self.bits(), 1),
    {
        get_bit(self.0, 1)
    }

    /// Bit 2 of the word.
    pub fn enable_dither(&self) -> (r: bool)
        ensures
            r == bit(self.bits(), 2),
    {
        get_bit(self.0, 2)
    }

    /// Bit 3 of the word.
    pub fn update_color(&self) -> (r: bool)
        ensures
            r == bit(self.bits(), 3),
    {
        get_bit(self.0, 3)
    }

    /// Bit 4 of the word.
    pub fn update_alpha(&self) -> (r: bool)
        ensures
            r == bit(self.bits(), 4),
    {
        get_bit(self.0, 4)
    }

    /// Bits 5..8 of the word.
    pub fn dst_factor(&self) -> (r: BlendFactor)
        ensures
            r == blend_factor_of(field(self.bits(), 5, 0x7)),
    {
        BlendFactor::from_bits(get_field(self.0, 5, 0x7))
    }

    /// Bits 8..11 of the word.
    pub fn src_factor(&self) -> (r: BlendFactor)
        ensures
            r == blend_factor_of(field(self.bits(), 8, 0x7)),
    {
        BlendFactor::from_bits(get_field(self.0, 8, 0x7))
    }

    /// Bit 11 of the word.
    pub fn subtract(&self) -> (r: bool)
        ensures
            r == bit(self.bits(), 11),
    {
        get_bit(self.0, 11)
    }

    /// Bits 12..16 of the word.
    pub fn logic_op(&self) -> (r: LogicOp)
        ensures
            r == logic_op_of(field(self.bits(), 12, 0xf)),
    {
        LogicOp::from_bits(get_field(self.0, 12, 0xf))
    }
}

/// A constant alpha value for the color buffer.
#[derive(Debug, Copy, Clone, PartialEq, Eq, Structural)]
pub struct ConstantAlpha(pub u32);

impl ConstantAlpha {
    /// The word this value is made of.
    pub open spec fn bits(&self) -> u32 {
        self.0
    }

    /// The value made of the word `bits`.
    pub fn from_bits(bits: u32) -> (r: Self)
        ensures
            r.bits() == bits,
    {
        ConstantAlpha(bits)
    }

    /// The word this value is made of.
    pub fn into_bits(&self) -> (r: u32)
        ensures
            r == self.bits(),
    {
        self.0
    }

    /// Bit 8 of the word.
    pub fn enable(&self) -> (r: bool)
        ensures
            r == bit(self.bits(), 8),
    {
        get_bit(self.0, 8)
    }

    /// Bits 16..24 of the word.
    pub fn value(&self) -> (r: u8)
        ensures
            r == field(self.bits(), 16, 0xff),
    {
        get_field(self.0, 16, 0xff) as u8
    }
}

/// Where the result of a layer goes.
#[derive(Debug, Copy, Clone, PartialEq, Eq, Structural)]
pub enum LayerBlendDest {
    FragmentOutput,
    Temp0,
    Temp1,
    Temp2,
    /// Fallback for codes that name no variant.
    Invalid,
}

/// The where the result of a layer goes with code `v`.
pub open spec fn layer_blend_dest_of(v: u32) -> LayerBlendDest {
    if v == 0 {
        LayerBlendDest::FragmentOutput
    } else if v == 1 {
        LayerBlendDest::Temp0
    } else if v == 2 {
        LayerBlendDest::Temp1
    } else if v == 3 {
        LayerBlendDest::Temp2
    } else {
        LayerBlendDest::Invalid
    }
}

/// The codes that the file format assigns: each code stated here names the value
/// beside it, and every code not listed gives the value of the last line.
pub proof fn lemma_layer_blend_dest_codes()
    ensures
        layer_blend_dest_of(0) == LayerBlendDest::FragmentOutput,
        layer_blend_dest_of(1) == LayerBlendDest::Temp0,
        layer_blend_dest_of(2) == LayerBlendDest::Temp1,
        layer_blend_dest_of(3) == LayerBlendDest::Temp2,
        forall|v: u32| !(v == 0 || v == 1 || v == 2 || v == 3) ==> #[trigger] layer_blend_dest_of(v) == LayerBlendDest::Invalid,
{
}

/// The code of `x`.
pub open spec fn layer_blend_dest_code(x: LayerBlendDest) -> u32 {
    match x {
        LayerBlendDest::FragmentOutput => 0,
        LayerBlendDest::Temp0 => 1,
        LayerBlendDest::Temp1 => 2,
        LayerBlendDest::Temp2 => 3,
        LayerBlendDest::Invalid => 4,
    }
}

impl LayerBlendDest {
    /// The variant with code `v`; other codes give `Invalid`.
    pub fn from_bits(v: u32) -> (r: Self)
        ensures
            r == layer_blend_dest_of(v),
    {
        match v {
            0 => LayerBlendDest::FragmentOutput,
            1 => LayerBlendDest::Temp0,
            2 => LayerBlendDest::Temp1,
            3 => LayerBlendDest::Temp2,
            _ => LayerBlendDest::Invalid,
        }
    }

    /// The code of this variant.
    pub fn into_bits(self) -> (r: u32)
        ensures
            r == layer_blend_dest_code(self),
    {
        match self {
            LayerBlendDest::FragmentOutput => 0,
            LayerBlendDest::Temp0 => 1,
            LayerBlendDest::Temp1 => 2,
            LayerBlendDest::Temp2 => 3,
            LayerBlendDest::Invalid => 4,
        }
    }
}

/// The scale of the result of a layer.
#[derive(Debug, Copy, Clone, PartialEq, Eq, Structural)]
pub enum LayerBlendShift {
    One,
    Two,
    Four,
    Five,
    /// Fallback for codes that name no variant.
    Invalid,
}

/// The scale of the result of a layer with code `v`.
pub open spec fn layer_blend_shift_of(v: u32) -> LayerBlendShift {
    if v == 0 {
        LayerBlendShift::One
    } else if v == 1 {
        LayerBlendShift::Two
    } else if v == 2 {
        LayerBlendShift::Four
    } else if v == 3 {
        LayerBlendShift::Five
    } else {
        LayerBlendShift::Invalid
    }
}

/// The codes that the file format assigns: each code stated here names the value
/// beside it, and every code not listed gives the value of the last line.
pub proof fn lemma_layer_blend_shift_codes()
    ensures
        layer_blend_shift_of(0) == LayerBlendShift::One,
        layer_blend_shift_of(1) == LayerBlendShift::Two,
        layer_blend_shift_of(2) == LayerBlendShift::Four,
        layer_blend_shift_of(3) == LayerBlendShift::Five,
        forall|v: u32| !(v == 0 || v == 1 || v == 2 || v == 3) ==> #[trigger] layer_blend_shift_of(v) == LayerBlendShift::Invalid,
{
}

/// The code of `x`.
pub open spec fn layer_blend_shift_code(x: LayerBlendShift) -> u32 {
    match x {
        LayerBlendShift::One => 0,
        LayerBlendShift::Two => 1,
        LayerBlendShift::Four => 2,
        LayerBlendShift::Five => 3,
        LayerBlendShift::Invalid => 4,
    }
}

impl LayerBlendShift {
    /// The variant with code `v`; other codes give `Invalid`.
    pub fn from_bits(v: u32) -> (r: Self)
        ensures
            r == layer_blend_shift_of(v),
    {
        match v {
            0 => LayerBlendShift::One,
            1 => LayerBlendShift::Two,
            2 => LayerBlendShift::Four,
            3 => LayerBlendShift::Five,
            _ => LayerBlendShift::Invalid,
        }
    }

    /// The code of this variant.
    pub fn into_bits(self) -> (r: u32)
        ensures
            r == layer_blend_shift_code(self),
    {
        match self {
            LayerBlendShift::One => 0,
            LayerBlendShift::Two => 1,
            LayerBlendShift::Four => 2,
            LayerBlendShift::Five => 3,
            LayerBlendShift::Invalid => 4,
        }
    }
}

/// An input of the color blend equation of a layer.
#[derive(Debug, Copy, Clone, PartialEq, Eq, Structural)]
pub enum ColorBlendArgument {
    FragmentOutput,
    FragmentOutputAlpha,
    Temp0,
    Temp0Alpha,
    Temp1,
    Temp1Alpha,
    Temp2,
    Temp2Alpha,
    Texture,
    TextureAlpha,
    Ras,
    RasAlpha,
    One,
    Half,
    Const,
    Zero,
    /// Fallback for codes that name no variant.
    Invalid,
}

/// The input of the color blend equation of a layer with code `v`.
pub open spec fn color_blend_argument_of(v: u32) -> ColorBlendArgument {
    if v == 0 {
        ColorBlendArgument::FragmentOutput
    } else if v == 1 {
        ColorBlendArgument::FragmentOutputAlpha
    } else if v == 2 {
        ColorBlendArgument::Temp0
    } else if v == 3 {
        ColorBlendArgument::Temp0Alpha
    } else if v == 4 {
        ColorBlendArgument::Temp1
    } else if v == 5 {
        ColorBlendArgument::Temp1Alpha
    } else if v == 6 {
        ColorBlendArgument::Temp2
    } else if v == 7 {
        ColorBlendArgument::Temp2Alpha
    } else if v == 8 {
        ColorBlendArgument::Texture
    } else if v == 9 {
        ColorBlendArgument::TextureAlpha
    } else if v == 10 {
        ColorBlendArgument::Ras
    } else if v == 11 {
        ColorBlendArgument::RasAlpha
    } else if v == 12 {
        ColorBlendArgument::One
    } else if v == 13 {
        ColorBlendArgument::Half
    } else if v == 14 {
        ColorBlendArgument::Const
    } else if v == 15 {
        ColorBlendArgument::Zero
    } else {
        ColorBlendArgument::Invalid
    }
}

/// The codes that the file format assigns: each code stated here names the value
/// beside it, and every code not listed gives the value of the last line.
pub proof fn lemma_color_blend_argument_codes()
    ensures
        color_blend_argument_of(0) == ColorBlendArgument::FragmentOutput,
        color_blend_argument_of(1) == ColorBlendArgument::FragmentOutputAlpha,
        color_blend_argument_of(2) == ColorBlendArgument::Temp0,
        color_blend_argument_of(3) == ColorBlendArgument::Temp0Alpha,
        color_blend_argument_of(4) == ColorBlendArgument::Temp1,
        color_blend_argument_of(5) == ColorBlendArgument::Temp1Alpha,
        color_blend_argument_of(6) == ColorBlendArgument::Temp2,
        color_blend_argument_of(7) == ColorBlendArgument::Temp2Alpha,
        color_blend_argument_of(8) == ColorBlendArgument::Texture,
        color_blend_argument_of(9) == ColorBlendArgument::TextureAlpha,
        color_blend_argument_of(10) == ColorBlendArgument::Ras,
        color_blend_argument_of(11) == ColorBlendArgument::RasAlpha,
        color_blend_argument_of(12) == ColorBlendArgument::One,
        color_blend_argument_of(13) == ColorBlendArgument::Half,
        color_blend_argument_of(14) == ColorBlendArgument::Const,
        color_blend_argument_of(15) == ColorBlendArgument::Zero,
        forall|v: u32| !(v == 0 || v == 1 || v == 2 || v == 3 || v == 4 || v == 5 || v == 6 || v == 7 || v == 8 || v == 9 || v == 10 || v == 11 || v == 12 || v == 13 || v == 14 || v == 15) ==> #[trigger] color_blend_argument_of(v) == ColorBlendArgument::Invalid,
{
}

/// The code of `x`.
pub open spec fn color_blend_argument_code(x: ColorBlendArgument) -> u32 {
    match x {
        ColorBlendArgument::FragmentOutput => 0,
        ColorBlendArgument::FragmentOutputAlpha => 1,
        ColorBlendArgument::Temp0 => 2,
        ColorBlendArgument::Temp0Alpha => 3,
        ColorBlendArgument::Temp1 => 4,
        ColorBlendArgument::Temp1Alpha => 5,
        ColorBlendArgument::Temp2 => 6,
        ColorBlendArgument::Temp2Alpha => 7,
        ColorBlendArgument::Texture => 8,
        ColorBlendArgument::TextureAlpha => 9,
        ColorBlendArgument::Ras => 10,
        ColorBlendArgument::RasAlpha => 11,
        ColorBlendArgument::One => 12,
        ColorBlendArgument::Half => 13,
        ColorBlendArgument::Const => 14,
        ColorBlendArgument::Zero => 15,
        ColorBlendArgument::Invalid => 16,
    }
}

impl ColorBlendArgument {
    /// The variant with code `v`; other codes give `Invalid`.
    pub fn from_bits(v: u32) -> (r: Self)
        ensures
            r == color_blend_argument_of(v),
    {
        match v {
            0 => ColorBlendArgument::FragmentOutput,
            1 => ColorBlendArgument::FragmentOutputAlpha,
            2 => ColorBlendArgument::Temp0,
            3 => ColorBlendArgument::Temp0Alpha,
            4 => ColorBlendArgument::Temp1,
            5 => ColorBlendArgument::Temp1Alpha,
            6 => ColorBlendArgument::Temp2,
            7 => ColorBlendArgument::Temp2Alpha,
            8 => ColorBlendArgument::Texture,
            9 => ColorBlendArgument::TextureAlpha,
            10 => ColorBlendArgument::Ras,
            11 => ColorBlendArgument::RasAlpha,
            12 => ColorBlendArgument::One,
            13 => ColorBlendArgument::Half,
            14 => ColorBlendArgument::Const,
            15 => ColorBlendArgument::Zero,
            _ => ColorBlendArgument::Invalid,
        }
    }

    /// The code of this variant.
    pub fn into_bits(self) -> (r: u32)
        ensures
            r == color_blend_argument_code(self),
    {
        match self {
            ColorBlendArgument::FragmentOutput => 0,
            ColorBlendArgument::FragmentOutputAlpha => 1,
            ColorBlendArgument::Temp0 => 2,
            ColorBlendArgument::Temp0Alpha => 3,
            ColorBlendArgument::Temp1 => 4,
            ColorBlendArgument::Temp1Alpha => 5,
            ColorBlendArgument::Temp2 => 6,
            ColorBlendArgument::Temp2Alpha => 7,
            ColorBlendArgument::Texture => 8,
            ColorBlendArgument::TextureAlpha => 9,
            ColorBlendArgument::Ras => 10,
            ColorBlendArgument::RasAlpha => 11,
            ColorBlendArgument::One => 12,
            ColorBlendArgument::Half => 13,
            ColorBlendArgument::Const => 14,
            ColorBlendArgument::Zero => 15,
            ColorBlendArgument::Invalid => 16,
        }
    }
}

/// The bias added in a layer.
#[derive(Debug, Copy, Clone, PartialEq, Eq, Structural)]
pub enum LayerBlendBias {
    Zero,
    Half,
    NegativeHalf,
    Special,
    /// Fallback for codes that name no variant.
    Invalid,
}

/// The bias added in a layer with code `v`.
pub open spec fn layer_blend_bias_of(v: u32) -> LayerBlendBias {
    if v == 0 {
        LayerBlendBias::Zero
    } else if v == 1 {
        LayerBlendBias::Half
    } else if v == 2 {
        LayerBlendBias::NegativeHalf
    } else if v == 3 {
        LayerBlendBias::Special
    } else {
        LayerBlendBias::Invalid
    }
}

/// The codes that the file format assigns: each code stated here names the value
/// beside it, and every code not listed gives the value of the last line.
pub proof fn lemma_layer_blend_bias_codes()
    ensures
        layer_blend_bias_of(0) == LayerBlendBias::Zero,
        layer_blend_bias_of(1) == LayerBlendBias::Half,
        layer_blend_bias_of(2) == LayerBlendBias::NegativeHalf,
        layer_blend_bias_of(3) == LayerBlendBias::Special,
        forall|v: u32| !(v == 0 || v == 1 || v == 2 || v == 3) ==> #[trigger] layer_blend_bias_of(v) == LayerBlendBias::Invalid,
{
}

/// The code of `x`.
pub open spec fn layer_blend_bias_code(x: LayerBlendBias) -> u32 {
    match x {
        LayerBlendBias::Zero => 0,
        LayerBlendBias::Half => 1,
        LayerBlendBias::NegativeHalf => 2,
        LayerBlendBias::Special => 3,
        LayerBlendBias::Invalid => 4,
    }
}

impl LayerBlendBias {
    /// The variant with code `v`; other codes give `Invalid`.
    pub fn from_bits(v: u32) -> (r: Self)
        ensures
            r == layer_blend_bias_of(v),
    {
        match v {
            0 => LayerBlendBias::Zero,
            1 => LayerBlendBias::Half,
            2 => LayerBlendBias::NegativeHalf,
            3 => LayerBlendBias::Special,
            _ => LayerBlendBias::Invalid,
        }
    }

    /// The code of this variant.
    pub fn into_bits(self) -> (r: u32)
        ensures
            r == layer_blend_bias_code(self),
    {
        match self {
            LayerBlendBias::Zero => 0,
            LayerBlendBias::Half => 1,
            LayerBlendBias::NegativeHalf => 2,
            LayerBlendBias::Special => 3,
            LayerBlendBias::Invalid => 4,
        }
    }
}

/// The operation of a layer.
#[derive(Debug, Copy, Clone, PartialEq, Eq, Structural)]
pub enum LayerBlendOp {
    Add,
    Subtract,
    /// Fallback for codes that name no variant.
    Invalid,
}

/// The operation of a layer with code `v`.
pub open spec fn layer_blend_op_of(v: u32) -> LayerBlendOp {
    if v == 0 {
        LayerBlendOp::Add
    } else if v == 1 {
        LayerBlendOp::Subtract
    } else {
        LayerBlendOp::Invalid
    }
}

/// The codes that the file format assigns: each code stated here names the value
/// beside it, and every code not listed gives the value of the last line.
pub proof fn lemma_layer_blend_op_codes()
    ensures
        layer_blend_op_of(0) == LayerBlendOp::Add,
        layer_blend_op_of(1) == LayerBlendOp::Subtract,
        forall|v: u32| !(v == 0 || v == 1) ==> #[trigger] layer_blend_op_of(v) == LayerBlendOp::Invalid,
{
}

/// The code of `x`.
pub open spec fn layer_blend_op_code(x: LayerBlendOp) -> u32 {
    match x {
        LayerBlendOp::Add => 0,
        LayerBlendOp::Subtract => 1,
        LayerBlendOp::Invalid => 2,
    }
}

impl LayerBlendOp {
    /// The variant with code `v`; other codes give `Invalid`.
    pub fn from_bits(v: u32) -> (r: Self)
        ensures
            r == layer_blend_op_of(v),
    {
        match v {
            0 => LayerBlendOp::Add,
            1 => LayerBlendOp::Subtract,
            _ => LayerBlendOp::Invalid,
        }
    }

    /// The code of this variant.
    pub fn into_bits(self) -> (r: u32)
        ensures
            r == layer_blend_op_code(self),
    {
        match self {
            LayerBlendOp::Add => 0,
            LayerBlendOp::Subtract => 1,
            LayerBlendOp::Invalid => 2,
        }
    }
}

/// The color equation of a layer:
/// `dest = shift * (argument_d op lerp(argument_a, argument_b, argument_c) + bias)`.
#[derive(Debug, Copy, Clone, PartialEq, Eq, Structural)]
pub struct ColorLayerBlendSettings(pub u32);

impl ColorLayerBlendSettings {
    /// The word this value is made of.
    pub open spec fn bits(&self) -> u32 {
        self.0
    }

    /// The value made of the word `bits`.
    pub fn from_bits(bits: u32) -> (r: Self)
        ensures
            r.bits() == bits,
    {
        ColorLayerBlendSettings(bits)
    }

    /// The word this value is made of.
    pub fn into_bits(&self) -> (r: u32)
        ensures
            r == self.bits(),
    {
        self.0
    }

    /// Bits 0..4 of the word.
    pub fn argument_a(&self) -> (r: ColorBlendArgument)
        ensures
            r == color_blend_argument_of(field(self.bits(), 0, 0xf)),
    {
        ColorBlendArgument::from_bits(get_field(self.0, 0, 0xf))
    }

    /// Bits 4..8 of the word.
    pub fn argument_b(&self) -> (r: ColorBlendArgument)
        ensures
            r == color_blend_argument_of(field(self.bits(), 4, 0xf)),
    {
        ColorBlendArgument::from_bits(get_field(self.0, 4, 0xf))
    }

    /// Bits 8..12 of the word.
    pub fn argument_c(&self) -> (r: ColorBlendArgument)
        ensures
            r == color_blend_argument_of(field(self.bits(), 8, 0xf)),
    {
        ColorBlendArgument::from_bits(get_field(self.0, 8, 0xf))
    }

    /// Bits 12..16 of the word.
    pub fn argument_d(&self) -> (r: ColorBlendArgument)
        ensures
            r == color_blend_argument_of(field(self.bits(), 12, 0xf)),
    {
        ColorBlendArgument::from_bits(get_field(self.0, 12, 0xf))
    }

    /// Bits 16..18 of the word.
    pub fn bias(&self) -> (r: LayerBlendBias)
        ensures
            r == layer_blend_bias_of(field(self.bits(), 16, 0x3)),
    {
        LayerBlendBias::from_bits(get_field(self.0, 16, 0x3))
    }

    /// Bit 18 of the word.
    pub fn op(&self) -> (r: LayerBlendOp)
        ensures
            r == layer_blend_op_of(field(self.bits(), 18, 0x1)),
    {
        LayerBlendOp::from_bits(get_field(self.0, 18, 0x1))
    }

    /// Bit 19 of the word.
    pub fn clamp(&self) -> (r: bool)
        ensures
            r == bit(self.bits(), 19),
    {
        get_bit(self.0, 19)
    }

    /// Bits 20..22 of the word.
    pub fn shift(&self) -> (r: LayerBlendShift)
        ensures
            r == layer_blend_shift_of(field(self.bits(), 20, 0x3)),
    {
        LayerBlendShift::from_bits(get_field(self.0, 20, 0x3))
    }

    /// Bits 22..24 of the word.
    pub fn dest(&self) -> (r: LayerBlendDest)
        ensures
            r == layer_blend_dest_of(field(self.bits(), 22, 0x3)),
    {
        LayerBlendDest::from_bits(get_field(self.0, 22, 0x3))
    }
}

/// An input of the alpha blend equation of a layer.
#[derive(Debug, Copy, Clone, PartialEq, Eq, Structural)]
pub enum AlphaBlendArgument {
    FragmentOutput,
    Temp0,
    Temp1,
    Temp2,
    Texture,
    Ras,
    Const,
    Zero,
    /// Fallback for codes that name no variant.
    Invalid,
}

/// The input of the alpha blend equation of a layer with code `v`.
pub open spec fn alpha_blend_argument_of(v: u32) -> AlphaBlendArgument {
    if v == 0 {
        AlphaBlendArgument::FragmentOutput
    } else if v == 1 {
        AlphaBlendArgument::Temp0
    } else if v == 2 {
        AlphaBlendArgument::Temp1
    } else if v == 3 {
        AlphaBlendArgument::Temp2
    } else if v == 4 {
        AlphaBlendArgument::Texture
    } else if v == 5 {
        AlphaBlendArgument::Ras
    } else if v == 6 {
        AlphaBlendArgument::Const
    } else if v == 7 {
        AlphaBlendArgument::Zero
    } else {
        AlphaBlendArgument::Invalid
    }
}

/// The codes that the file format assigns: each code stated here names the value
/// beside it, and every code not listed gives the value of the last line.
pub proof fn lemma_alpha_blend_argument_codes()
    ensures
        alpha_blend_argument_of(0) == AlphaBlendArgument::FragmentOutput,
        alpha_blend_argument_of(1) == AlphaBlendArgument::Temp0,
        alpha_blend_argument_of(2) == AlphaBlendArgument::Temp1,
        alpha_blend_argument_of(3) == AlphaBlendArgument::Temp2,
        alpha_blend_argument_of(4) == AlphaBlendArgument::Texture,
        alpha_blend_argument_of(5) == AlphaBlendArgument::Ras,
        alpha_blend_argument_of(6) == AlphaBlendArgument::Const,
        alpha_blend_argument_of(7) == AlphaBlendArgument::Zero,
        forall|v: u32| !(v == 0 || v == 1 || v == 2 || v == 3 || v == 4 || v == 5 || v == 6 || v == 7) ==> #[trigger] alpha_blend_argument_of(v) == AlphaBlendArgument::Invalid,
{
}

/// The code of `x`.
pub open spec fn alpha_blend_argument_code(x: AlphaBlendArgument) -> u32 {
    match x {
        AlphaBlendArgument::FragmentOutput => 0,
        AlphaBlendArgument::Temp0 => 1,
        AlphaBlendArgument::Temp1 => 2,
        AlphaBlendArgument::Temp2 => 3,
        AlphaBlendArgument::Texture => 4,
        AlphaBlendArgument::Ras => 5,
        AlphaBlendArgument::Const => 6,
        AlphaBlendArgument::Zero => 7,
        AlphaBlendArgument::Invalid => 8,
    }
}

impl AlphaBlendArgument {
    /// The variant with code `v`; other codes give `Invalid`.
    pub fn from_bits(v: u32) -> (r: Self)
        ensures
            r == alpha_blend_argument_of(v),
    {
        match v {
            0 => AlphaBlendArgument::FragmentOutput,
            1 => AlphaBlendArgument::Temp0,
            2 => AlphaBlendArgument::Temp1,
            3 => AlphaBlendArgument::Temp2,
            4 => AlphaBlendArgument::Texture,
            5 => AlphaBlendArgument::Ras,
            6 => AlphaBlendArgument::Const,
            7 => AlphaBlendArgument::Zero,
            _ => AlphaBlendArgument::Invalid,
        }
    }

    /// The code of this variant.
    pub fn into_bits(self) -> (r: u32)
        ensures
            r == alpha_blend_argument_code(self),
    {
        match self {
            AlphaBlendArgument::FragmentOutput => 0,
            AlphaBlendArgument::Temp0 => 1,
            AlphaBlendArgument::Temp1 => 2,
            AlphaBlendArgument::Temp2 => 3,
            AlphaBlendArgument::Texture => 4,
            AlphaBlendArgument::Ras => 5,
            AlphaBlendArgument::Const => 6,
            AlphaBlendArgument::Zero => 7,
            AlphaBlendArgument::Invalid => 8,
        }
    }
}

/// The alpha equation of a layer:
/// `dest = shift * (argument_d op lerp(argument_a, argument_b, argument_c) + bias)`.
#[derive(Debug, Copy, Clone, PartialEq, Eq, Structural)]
pub struct AlphaLayerBlendSettings(pub u32);

impl AlphaLayerBlendSettings {
    /// The word this value is made of.
    pub open spec fn bits(&self) -> u32 {
        self.0
    }

    /// The value made of the word `bits`.
    pub fn from_bits(bits: u32) -> (r: Self)
        ensures
            r.bits() == bits,
    {
        AlphaLayerBlendSettings(bits)
    }

    /// The word this value is made of.
    pub fn into_bits(&self) -> (r: u32)
        ensures
            r == self.bits(),
    {
        self.0
    }

    /// Bits 4..7 of the word.
    pub fn argument_a(&self) -> (r: AlphaBlendArgument)
        ensures
            r == alpha_blend_argument_of(field(self.bits(), 4, 0x7)),
    {
        AlphaBlendArgument::from_bits(get_field(self.0, 4, 0x7))
    }

    /// Bits 7..10 of the word.
    pub fn argument_b(&self) -> (r: AlphaBlendArgument)
        ensures
            r == alpha_blend_argument_of(field(self.bits(), 7, 0x7)),
    {
        AlphaBlendArgument::from_bits(get_field(self.0, 7, 0x7))
    }

    /// Bits 10..13 of the word.
    pub fn argument_c(&self) -> (r: AlphaBlendArgument)
        ensures
            r == alpha_blend_argument_of(field(self.bits(), 10, 0x7)),
    {
        AlphaBlendArgument::from_bits(get_field(self.0, 10, 0x7))
    }

    /// Bits 13..16 of the word.
    pub fn argument_d(&self) -> (r: AlphaBlendArgument)
        ensures
            r == alpha_blend_argument_of(field(self.bits(), 13, 0x7)),
    {
        AlphaBlendArgument::from_bits(get_field(self.0, 13, 0x7))
    }

    /// Bits 16..18 of the word.
    pub fn bias(&self) -> (r: LayerBlendBias)
        ensures
            r == layer_blend_bias_of(field(self.bits(), 16, 0x3)),
    {
        LayerBlendBias::from_bits(get_field(self.0, 16, 0x3))
    }

    /// Bit 18 of the word.
    pub fn op(&self) -> (r: LayerBlendOp)
        ensures
            r == layer_blend_op_of(field(self.bits(), 18, 0x1)),
    {
        LayerBlendOp::from_bits(get_field(self.0, 18, 0x1))
    }

    /// Bit 19 of the word.
    pub fn clamp(&self) -> (r: bool)
        ensures
            r == bit(self.bits(), 19),
    {
        get_bit(self.0, 19)
    }

    /// Bits 20..22 of the word.
    pub fn shift(&self) -> (r: LayerBlendShift)
        ensures
            r == layer_blend_shift_of(field(self.bits(), 20, 0x3)),
    {
        LayerBlendShift::from_bits(get_field(self.0, 20, 0x3))
    }

    /// Bits 22..24 of the word.
    pub fn dest(&self) -> (r: LayerBlendDest)
        ensures
            r == layer_blend_dest_of(field(self.bits(), 22, 0x3)),
    {
        LayerBlendDest::from_bits(get_field(self.0, 22, 0x3))
    }
}

/// A color channel in a swap table.
#[derive(Debug, Copy, Clone, PartialEq, Eq, Structural)]
pub enum SwapComponent {
    Red,
    Green,
    Blue,
    Alpha,
    /// Fallback for codes that name no variant.
    Invalid,
}

/// The color channel in a swap table with code `v`.
pub open spec fn swap_component_of(v: u32) -> SwapComponent {
    if v == 0 {
        SwapComponent::Red
    } else if v == 1 {
        SwapComponent::Green
    } else if v == 2 {
        SwapComponent::Blue
    } else if v == 3 {
        SwapComponent::Alpha
    } else {
        SwapComponent::Invalid
    }
}

/// The codes that the file format assigns: each code stated here names the value
/// beside it, and every code not listed gives the value of the last line.
pub proof fn lemma_swap_component_codes()
    ensures
        swap_component_of(0) == SwapComponent::Red,
        swap_component_of(1) == SwapComponent::Green,
        swap_component_of(2) == SwapComponent::Blue,
        swap_component_of(3) == SwapComponent::Alpha,
        forall|v: u32| !(v == 0 || v == 1 || v == 2 || v == 3) ==> #[trigger] swap_component_of(v) == SwapComponent::Invalid,
{
}

/// The code of `x`.
pub open spec fn swap_component_code(x: SwapComponent) -> u32 {
    match x {
        SwapComponent::Red => 0,
        SwapComponent::Green => 1,
        SwapComponent::Blue => 2,
        SwapComponent::Alpha => 3,
        SwapComponent::Invalid => 4,
    }
}

impl SwapComponent {
    /// The variant with code `v`; other codes give `Invalid`.
    pub fn from_bits(v: u32) -> (r: Self)
        ensures
            r == swap_component_of(v),
    {
        match v {
            0 => SwapComponent::Red,
            1 => SwapComponent::Green,
            2 => SwapComponent::Blue,
            3 => SwapComponent::Alpha,
            _ => SwapComponent::Invalid,
        }
    }

    /// The code of this variant.
    pub fn into_bits(self) -> (r: u32)
        ensures
            r == swap_component_code(self),
    {
        match self {
            SwapComponent::Red => 0,
            SwapComponent::Green => 1,
            SwapComponent::Blue => 2,
            SwapComponent::Alpha => 3,
            SwapComponent::Invalid => 4,
        }
    }
}

/// How the swap mode table is accessed when a texture is drawn on a polygon.
#[derive(Debug, Copy, Clone, PartialEq, Eq, Structural)]
pub struct SwapModeTableSettings(pub u32);

impl SwapModeTableSettings {
    /// The word this value is made of.
    pub open spec fn bits(&self) -> u32 {
        self.0
    }

    /// The value made of the word `bits`.
    pub fn from_bits(bits: u32) -> (r: Self)
        ensures
            r.bits() == bits,
    {
        SwapModeTableSettings(bits)
    }

    /// The word this value is made of.
    pub fn into_bits(&self) -> (r: u32)
        ensures
            r == self.bits(),
    {
        self.0
    }

    /// Bits 0..2 of the word.
    pub fn swap1(&self) -> (r: SwapComponent)
        ensures
            r == swap_component_of(field(self.bits(), 0, 0x3)),
    {
        SwapComponent::from_bits(get_field(self.0, 0, 0x3))
    }

    /// Bits 2..4 of the word.
    pub fn swap2(&self) -> (r: SwapComponent)
        ensures
            r == swap_component_of(field(self.bits(), 2, 0x3)),
    {
        SwapComponent::from_bits(get_field(self.0, 2, 0x3))
    }

    /// Bits 4..9 of the word.
    pub fn color0_index(&self) -> (r: u8)
        ensures
            r == field(self.bits(), 4, 0x1f),
    {
        get_field(self.0, 4, 0x1f) as u8
    }

    /// Bits 9..14 of the word.
    pub fn alpha0_index(&self) -> (r: u8)
        ensures
            r == field(self.bits(), 9, 0x1f),
    {
        get_field(self.0, 9, 0x1f) as u8
    }

    /// Bits 14..19 of the word.
    pub fn color1_index(&self) -> (r: u8)
        ensures
            r == field(self.bits(), 14, 0x1f),
    {
        get_field(self.0, 14, 0x1f) as u8
    }

    /// Bits 19..24 of the word.
    pub fn alpha1_index(&self) -> (r: u8)
        ensures
            r == field(self.bits(), 19, 0x1f),
    {
        get_field(self.0, 19, 0x1f) as u8
    }
}

/// A comparison of the alpha (or depth) test.
#[derive(Debug, Copy, Clone, PartialEq, Eq, Structural)]
pub enum AlphaCompare {
    Never,
    Less,
    Equal,
    LessOrEqual,
    Greater,
    NotEqual,
    GreaterOrEqual,
    Always,
    /// Fallback for codes that name no variant.
    Invalid,
}

/// The comparison of the alpha (or depth) test with code `v`.
pub open spec fn alpha_compare_of(v: u32) -> AlphaCompare {
    if v == 0 {
        AlphaCompare::Never
    } else if v == 1 {
        AlphaCompare::Less
    } else if v == 2 {
        AlphaCompare::Equal
    } else if v == 3 {
        AlphaCompare::LessOrEqual
    } else if v == 4 {
        AlphaCompare::Greater
    } else if v == 5 {
        AlphaCompare::NotEqual
    } else if v == 6 {
        AlphaCompare::GreaterOrEqual
    } else if v == 7 {
        AlphaCompare::Always
    } else {
        AlphaCompare::Invalid
    }
}

/// The codes that the file format assigns: each code stated here names the value
/// beside it, and every code not listed gives the value of the last line.
pub proof fn lemma_alpha_compare_codes()
    ensures
        alpha_compare_of(0) == AlphaCompare::Never,
        alpha_compare_of(1) == AlphaCompare::Less,
        alpha_compare_of(2) == AlphaCompare::Equal,
        alpha_compare_of(3) == AlphaCompare::LessOrEqual,
        alpha_compare_of(4) == AlphaCompare::Greater,
        alpha_compare_of(5) == AlphaCompare::NotEqual,
        alpha_compare_of(6) == AlphaCompare::GreaterOrEqual,
        alpha_compare_of(7) == AlphaCompare::Always,
        forall|v: u32| !(v == 0 || v == 1 || v == 2 || v == 3 || v == 4 || v == 5 || v == 6 || v == 7) ==> #[trigger] alpha_compare_of(v) == AlphaCompare::Invalid,
{
}

/// The code of `x`.
pub open spec fn alpha_compare_code(x: AlphaCompare) -> u32 {
    match x {
        AlphaCompare::Never => 0,
        AlphaCompare::Less => 1,
        AlphaCompare::Equal => 2,
        AlphaCompare::LessOrEqual => 3,
        AlphaCompare::Greater => 4,
        AlphaCompare::NotEqual => 5,
        AlphaCompare::GreaterOrEqual => 6,
        AlphaCompare::Always => 7,
        AlphaCompare::Invalid => 8,
    }
}

impl AlphaCompare {
    /// The variant with code `v`; other codes give `Invalid`.
    pub fn from_bits(v: u32) -> (r: Self)
        ensures
            r == alpha_compare_of(v),
    {
        match v {
            0 => AlphaCompare::Never,
            1 => AlphaCompare::Less,
            2 => AlphaCompare::Equal,
            3 => AlphaCompare::LessOrEqual,
            4 => AlphaCompare::Greater,
            5 => AlphaCompare::NotEqual,
            6 => AlphaCompare::GreaterOrEqual,
            7 => AlphaCompare::Always,
            _ => AlphaCompare::Invalid,
        }
    }

    /// The code of this variant.
    pub fn into_bits(self) -> (r: u32)
        ensures
            r == alpha_compare_code(self),
    {
        match self {
            AlphaCompare::Never => 0,
            AlphaCompare::Less => 1,
            AlphaCompare::Equal => 2,
            AlphaCompare::LessOrEqual => 3,
            AlphaCompare::Greater => 4,
            AlphaCompare::NotEqual => 5,
            AlphaCompare::GreaterOrEqual => 6,
            AlphaCompare::Always => 7,
            AlphaCompare::Invalid => 8,
        }
    }
}

/// How the two alpha comparisons combine.
#[derive(Debug, Copy, Clone, PartialEq, Eq, Structural)]
pub enum AlphaOp {
    And,
    Or,
    Xor,
    Xnor,
    /// Fallback for codes that name no variant.
    Invalid,
}

/// How the two alpha comparisons combine, for code `v`.
pub open spec fn alpha_op_of(v: u32) -> AlphaOp {
    if v == 0 {
        AlphaOp::And
    } else if v == 1 {
        AlphaOp::Or
    } else if v == 2 {
        AlphaOp::Xor
    } else if v == 3 {
        AlphaOp::Xnor
    } else {
        AlphaOp::Invalid
    }
}

/// The codes that the file format assigns: each code stated here names the value
/// beside it, and every code not listed gives the value of the last line.
pub proof fn lemma_alpha_op_codes()
    ensures
        alpha_op_of(0) == AlphaOp::And,
        alpha_op_of(1) == AlphaOp::Or,
        alpha_op_of(2) == AlphaOp::Xor,
        alpha_op_of(3) == AlphaOp::Xnor,
        forall|v: u32| !(v == 0 || v == 1 || v == 2 || v == 3) ==> #[trigger] alpha_op_of(v) == AlphaOp::Invalid,
{
}

/// The code of `x`.
pub open spec fn alpha_op_code(x: AlphaOp) -> u32 {
    match x {
        AlphaOp::And => 0,
        AlphaOp::Or => 1,
        AlphaOp::Xor => 2,
        AlphaOp::Xnor => 3,
        AlphaOp::Invalid => 4,
    }
}

impl AlphaOp {
    /// The variant with code `v`; other codes give `Invalid`.
    pub fn from_bits(v: u32) -> (r: Self)
        ensures
            r == alpha_op_of(v),
    {
        match v {
            0 => AlphaOp::And,
            1 => AlphaOp::Or,
            2 => AlphaOp::Xor,
            3 => AlphaOp::Xnor,
            _ => AlphaOp::Invalid,
        }
    }

    /// The code of this variant.
    pub fn into_bits(self) -> (r: u32)
        ensures
            r == alpha_op_code(self),
    {
        match self {
            AlphaOp::And => 0,
            AlphaOp::Or => 1,
            AlphaOp::Xor => 2,
            AlphaOp::Xnor => 3,
            AlphaOp::Invalid => 4,
        }
    }
}

/// The alpha test: two comparisons and how they combine.
#[derive(Debug, Copy, Clone, PartialEq, Eq, Structural)]
pub struct AlphaFunction(pub u32);

impl AlphaFunction {
    /// The word this value is made of.
    pub open spec fn bits(&self) -> u32 {
        self.0
    }

    /// The value made of the word `bits`.
    pub fn from_bits(bits: u32) -> (r: Self)
        ensures
            r.bits() == bits,
    {
        AlphaFunction(bits)
    }

    /// The word this value is made of.
    pub fn into_bits(&self) -> (r: u32)
        ensures
            r == self.bits(),
    {
        self.0
    }

    /// Bits 0..8 of the word.
    pub fn ref0(&self) -> (r: u8)
        ensures
            r == field(self.bits(), 0, 0xff),
    {
        get_field(self.0, 0, 0xff) as u8
    }

    /// Bits 8..16 of the word.
    pub fn ref1(&self) -> (r: u8)
        ensures
            r == field(self.bits(), 8, 0xff),
    {
        get_field(self.0, 8, 0xff) as u8
    }

    /// Bits 16..19 of the word.
    pub fn comp0(&self) -> (r: AlphaCompare)
        ensures
            r == alpha_compare_of(field(self.bits(), 16, 0x7)),
    {
        AlphaCompare::from_bits(get_field(self.0, 16, 0x7))
    }

    /// Bits 19..22 of the word.
    pub fn comp1(&self) -> (r: AlphaCompare)
        ensures
            r == alpha_compare_of(field(self.bits(), 19, 0x7)),
    {
        AlphaCompare::from_bits(get_field(self.0, 19, 0x7))
    }

    /// Bits 22..24 of the word.
    pub fn logic(&self) -> (r: AlphaOp)
        ensures
            r == alpha_op_of(field(self.bits(), 22, 0x3)),
    {
        AlphaOp::from_bits(get_field(self.0, 22, 0x3))
    }
}

/// A pair of constant color registers.
#[derive(Debug, Copy, Clone, PartialEq, Eq, Structural)]
pub struct MaterialAddressRange(pub u32);

impl MaterialAddressRange {
    /// The word this value is made of.
    pub open spec fn bits(&self) -> u32 {
        self.0
    }

    /// The value made of the word `bits`.
    pub fn from_bits(bits: u32) -> (r: Self)
        ensures
            r.bits() == bits,
    {
        MaterialAddressRange(bits)
    }

    /// The word this value is made of.
    pub fn into_bits(&self) -> (r: u32)
        ensures
            r == self.bits(),
    {
        self.0
    }

    /// Bits 0..11 of the word.
    pub fn red_blue(&self) -> (r: u16)
        ensures
            r == field(self.bits(), 0, 0x7ff),
    {
        get_field(self.0, 0, 0x7ff) as u16
    }

    /// Bits 12..23 of the word.
    pub fn alpha_green(&self) -> (r: u16)
        ensures
            r == field(self.bits(), 12, 0x7ff),
    {
        get_field(self.0, 12, 0x7ff) as u16
    }

    /// Bit 23 of the word.
    pub fn constant(&self) -> (r: bool)
        ensures
            r == bit(self.bits(), 23),
    {
        get_bit(self.0, 23)
    }
}
/// Which pair of constant color registers a `MaterialAddress` load writes.
#[derive(Debug, Copy, Clone, PartialEq, Eq, Structural)]
pub enum ComponentsSet {
    RedAlpha,
    BlueGreen,
}

/// Whether `e` is the error that reading a `LoadBP` command at `q` of `s` gives where
/// there is none: the end of the input, a wrong opcode, or a register write that is
/// not supported (texture read registers) or unknown.
pub open spec fn bp_error(s: Seq<u8>, q: int, e: EditorError) -> bool {
    if !can_read(s, q, 1) {
        e is IoError
    } else if s[q] != 0x61 {
        e is Corrupted
    } else if !can_read(s, q + 1, 4) {
        e is IoError
    } else if 0x28 <= s[q + 1] <= 0x2f {
        e is Unsupported
    } else {
        e is Corrupted
    }
}

/// A write to a blitting processor register.
#[derive(Debug, Copy, Clone, PartialEq, Eq, Structural)]
pub enum LoadBpOpCode {
    IndirectTexture(SetIndirectTexture),
    TextureRead { tex_id: u8, payload: TextureReadSettings },
    DepthTest(DepthTest),
    BlendMode(BlendMode),
    ConstantAlpha(ConstantAlpha),
    ColorLayerBlend { layer: u8, payload: ColorLayerBlendSettings },
    AlphaLayerBlend { layer: u8, payload: AlphaLayerBlendSettings },
    SwapModeTable { table: u8, payload: SwapModeTableSettings },
    MaterialAddress { components: ComponentsSet, payload: MaterialAddressRange },
    AlphaFunction(AlphaFunction),
    WriteMask(u32),
}

/// Whether `a` is the register address of the color equation of a layer (even addresses 0xc0 to 0xce).
pub open spec fn is_color_layer(a: u8) -> bool {
    0xc0 <= a <= 0xce && a % 2 == 0
}

/// Whether `a` is the register address of the alpha equation of a layer (odd addresses 0xc1 to 0xcf).
pub open spec fn is_alpha_layer(a: u8) -> bool {
    0xc1 <= a <= 0xcf && a % 2 == 1
}

/// The register write with address `a` and value `v`; none for the addresses of
/// texture reads (0x28 to 0x2f), which this crate does not read, and for addresses
/// that are no register.
pub open spec fn load_bp_of(a: u8, v: u32) -> Option<LoadBpOpCode> {
    if a == 0x27 {
        Some(LoadBpOpCode::IndirectTexture(SetIndirectTexture(v)))
    } else if a == 0x40 {
        Some(LoadBpOpCode::DepthTest(DepthTest(v)))
    } else if a == 0x41 {
        Some(LoadBpOpCode::BlendMode(BlendMode(v)))
    } else if a == 0x42 {
        Some(LoadBpOpCode::ConstantAlpha(ConstantAlpha(v)))
    } else if is_color_layer(a) {
        Some(LoadBpOpCode::ColorLayerBlend { layer: a, payload: ColorLayerBlendSettings(v) })
    } else if is_alpha_layer(a) {
        Some(LoadBpOpCode::AlphaLayerBlend { layer: a, payload: AlphaLayerBlendSettings(v) })
    } else if 0xf6 <= a <= 0xfd {
        Some(LoadBpOpCode::SwapModeTable { table: (a & 0x03) as u8, payload: SwapModeTableSettings(v) })
    } else if 0xe0 <= a <= 0xe8 {
        Some(
            LoadBpOpCode::MaterialAddress {
                components: if a & 0x01 == 0x01 {
                    ComponentsSet::BlueGreen
                } else {
                    ComponentsSet::RedAlpha
                },
                payload: MaterialAddressRange(v),
            },
        )
    } else if a == 0xf3 {
        Some(LoadBpOpCode::AlphaFunction(AlphaFunction(v)))
    } else if a == 0xfe {
        Some(LoadBpOpCode::WriteMask(v))
    } else {
        None
    }
}

/// The register addresses of the blitting processor that are read, and what a write to
/// each of them is: 0x27 indirect textures, 0x40 depth test, 0x41 blend mode, 0x42
/// constant alpha, 0xc0 to 0xcf the color (even) and alpha (odd) equations of layers
/// 0 to 7, 0xe0 to 0xe8 material address ranges (odd: blue and green), 0xf3 the alpha
/// function, 0xf6 to 0xfd the swap mode tables, 0xfe the write mask.
pub proof fn lemma_load_bp_registers(v: u32)
    ensures
        load_bp_of(0x27, v) == Some(LoadBpOpCode::IndirectTexture(SetIndirectTexture(v))),
        load_bp_of(0x40, v) == Some(LoadBpOpCode::DepthTest(DepthTest(v))),
        load_bp_of(0x41, v) == Some(LoadBpOpCode::BlendMode(BlendMode(v))),
        load_bp_of(0x42, v) == Some(LoadBpOpCode::ConstantAlpha(ConstantAlpha(v))),
        load_bp_of(0xf3, v) == Some(LoadBpOpCode::AlphaFunction(AlphaFunction(v))),
        load_bp_of(0xfe, v) == Some(LoadBpOpCode::WriteMask(v)),
        forall|k: u8|
            k < 8 ==> #[trigger] load_bp_of((0xc0 + 2 * k) as u8, v) == Some(
                LoadBpOpCode::ColorLayerBlend { layer: (0xc0 + 2 * k) as u8, payload: ColorLayerBlendSettings(v) },
            ),
        forall|k: u8|
            k < 8 ==> #[trigger] load_bp_of((0xc1 + 2 * k) as u8, v) == Some(
                LoadBpOpCode::AlphaLayerBlend { layer: (0xc1 + 2 * k) as u8, payload: AlphaLayerBlendSettings(v) },
            ),
        load_bp_of(0xe0, v) == Some(
            LoadBpOpCode::MaterialAddress { components: ComponentsSet::RedAlpha, payload: MaterialAddressRange(v) },
        ),
        load_bp_of(0xe1, v) == Some(
            LoadBpOpCode::MaterialAddress { components: ComponentsSet::BlueGreen, payload: MaterialAddressRange(v) },
        ),
{
    assert((0xe0u8 & 0x01) == 0 && (0xe1u8 & 0x01) == 0x01) by (bit_vector);
    assert forall|k: u8| k < 8 implies #[trigger] load_bp_of((0xc0 + 2 * k) as u8, v) == Some(
        LoadBpOpCode::ColorLayerBlend { layer: (0xc0 + 2 * k) as u8, payload: ColorLayerBlendSettings(v) },
    ) by {
        assert(is_color_layer((0xc0 + 2 * k) as u8));
    }
    assert forall|k: u8| k < 8 implies #[trigger] load_bp_of((0xc1 + 2 * k) as u8, v) == Some(
        LoadBpOpCode::AlphaLayerBlend { layer: (0xc1 + 2 * k) as u8, payload: AlphaLayerBlendSettings(v) },
    ) by {
        assert(is_alpha_layer((0xc1 + 2 * k) as u8));
        assert(!is_color_layer((0xc1 + 2 * k) as u8));
    }
}

impl Deserialize for LoadBpOpCode {
    fn deserialize(reader: &mut RefCursor) -> (r: EditorResult<Self>)
        ensures
            final(reader).bytes() == old(reader).bytes(),
            ({
                let s = old(reader).bytes();
                let p = old(reader).pos();
                match r {
                    Ok(op) => can_read(s, p, 4) && load_bp_of(s[p], u24_be(s, p + 1)) == Some(op)
                        && final(reader).pos() == p + 4,
                    Err(e) => if !can_read(s, p, 4) {
                        e is IoError
                    } else if 0x28 <= s[p] <= 0x2f {
                        e is Unsupported
                    } else {
                        load_bp_of(s[p], u24_be(s, p + 1)) is None && e is Corrupted
                    },
                }
            }),
    {
        let ghost s = reader.bytes();
        let ghost p = reader.pos();
        if !reader.has(4) {
            let e = reader.read_u32().unwrap_err();
            return Err(e);
        }
        let address = reader.read_u8()?;
        let value = reader.read_u24()?;
        if address == 0x27 {
            Ok(LoadBpOpCode::IndirectTexture(SetIndirectTexture::from_bits(value)))
        } else if address >= 0x28 && address <= 0x2f {
            Err(unsupported("texture read registers of the blitting processor are not read".to_owned(), Some(reader.position())))
        } else if address == 0x40 {
            Ok(LoadBpOpCode::DepthTest(DepthTest::from_bits(value)))
        } else if address == 0x41 {
            Ok(LoadBpOpCode::BlendMode(BlendMode::from_bits(value)))
        } else if address == 0x42 {
            Ok(LoadBpOpCode::ConstantAlpha(ConstantAlpha::from_bits(value)))
        } else if address >= 0xc0 && address <= 0xce && address % 2 == 0 {
            Ok(LoadBpOpCode::ColorLayerBlend { layer: address, payload: ColorLayerBlendSettings::from_bits(value) })
        } else if address >= 0xc1 && address <= 0xcf && address % 2 == 1 {
            Ok(LoadBpOpCode::AlphaLayerBlend { layer: address, payload: AlphaLayerBlendSettings::from_bits(value) })
        } else if address >= 0xf6 && address <= 0xfd {
            Ok(LoadBpOpCode::SwapModeTable { table: address & 0x03, payload: SwapModeTableSettings::from_bits(value) })
        } else if address >= 0xe0 && address <= 0xe8 {
            let components = if address & 0x01 == 0x01 {
                ComponentsSet::BlueGreen
            } else {
                ComponentsSet::RedAlpha
            };
            Ok(LoadBpOpCode::MaterialAddress { components, payload: MaterialAddressRange::from_bits(value) })
        } else if address == 0xf3 {
            Ok(LoadBpOpCode::AlphaFunction(AlphaFunction::from_bits(value)))
        } else if address == 0xfe {
            Ok(LoadBpOpCode::WriteMask(value))
        } else {
            Err(
                corrupted(
                    reason_with_value("invalid blit processor opcode: ", address as u64, ""),
                    Some(reader.position()),
                ),
            )
        }
    }
}

/// Reading the code of a ras constant back gives the same value.
pub proof fn lemma_ras_constant_code_roundtrip(x: RasConstant)
    ensures
        ras_constant_of(ras_constant_code(x)) == x,
{
}

/// Reading the code of a blend factor back gives the same value.
pub proof fn lemma_blend_factor_code_roundtrip(x: BlendFactor)
    ensures
        blend_factor_of(blend_factor_code(x)) == x,
{
}

/// Reading the code of a logic op back gives the same value.
pub proof fn lemma_logic_op_code_roundtrip(x: LogicOp)
    ensures
        logic_op_of(logic_op_code(x)) == x,
{
}

/// Reading the code of a layer blend dest back gives the same value.
pub proof fn lemma_layer_blend_dest_code_roundtrip(x: LayerBlendDest)
    ensures
        layer_blend_dest_of(layer_blend_dest_code(x)) == x,
{
}

/// Reading the code of a layer blend shift back gives the same value.
pub proof fn lemma_layer_blend_shift_code_roundtrip(x: LayerBlendShift)
    ensures
        layer_blend_shift_of(layer_blend_shift_code(x)) == x,
{
}

/// Reading the code of a color blend argument back gives the same value.
pub proof fn lemma_color_blend_argument_code_roundtrip(x: ColorBlendArgument)
    ensures
        color_blend_argument_of(color_blend_argument_code(x)) == x,
{
}

/// Reading the code of a layer blend bias back gives the same value.
pub proof fn lemma_layer_blend_bias_code_roundtrip(x: LayerBlendBias)
    ensures
        layer_blend_bias_of(layer_blend_bias_code(x)) == x,
{
}

/// Reading the code of a layer blend op back gives the same value.
pub proof fn lemma_layer_blend_op_code_roundtrip(x: LayerBlendOp)
    ensures
        layer_blend_op_of(layer_blend_op_code(x)) == x,
{
}

/// Reading the code of a alpha blend argument back gives the same value.
pub proof fn lemma_alpha_blend_argument_code_roundtrip(x: AlphaBlendArgument)
    ensures
        alpha_blend_argument_of(alpha_blend_argument_code(x)) == x,
{
}

/// Reading the code of a swap component back gives the same value.
pub proof fn lemma_swap_component_code_roundtrip(x: SwapComponent)
    ensures
        swap_component_of(swap_component_code(x)) == x,
{
}

/// Reading the code of a alpha compare back gives the same value.
pub proof fn lemma_alpha_compare_code_roundtrip(x: AlphaCompare)
    ensures
        alpha_compare_of(alpha_compare_code(x)) == x,
{
}

/// Reading the code of a alpha op back gives the same value.
pub proof fn lemma_alpha_op_code_roundtrip(x: AlphaOp)
    ensures
        alpha_op_of(alpha_op_code(x)) == x,
{
}

} // verus!
