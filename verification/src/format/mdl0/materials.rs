//! Materials of MDL0 models.
use vstd::prelude::*;

use crate::error::{corrupted, reason_with_value, EditorError, EditorResult};
use crate::format::bits::{bit, field, get_bit, get_field};
use crate::format::encoding::Deserialize;
use crate::format::mdl0::gx::load_bp::{bp_error, load_bp_of, AlphaFunction, BlendMode, ConstantAlpha, DepthTest, LoadBpOpCode};
use crate::format::mdl0::{texture_matrix_mode_of, TextureMatrixMode};
use crate::shared::util::{can_read, i32_be, u24_be, u32_be, u32s_at, RefCursor};

use crate::format::mdl0::section::{deserialize_entries, EntryKind};
use crate::node::node::VirtualNodeBody;
use crate::node::refs::{VirtualNodeId, VirtualNodeMap};
verus! {

/// Flags of a material.
#[derive(Debug, Copy, Clone, PartialEq, Eq, Structural)]
pub struct MaterialFlags(pub u32);

impl MaterialFlags {
    /// The word this value is made of.
    pub open spec fn bits(&self) -> u32 {
        self.0
    }

    /// The value made of the word `bits`.
    pub fn from_bits(bits: u32) -> (r: Self)
        ensures
            r.bits() == bits,
    {
        MaterialFlags(bits)
    }

    /// The word this value is made of.
    pub fn into_bits(&self) -> (r: u32)
        ensures
            r == self.bits(),
    {
        self.0
    }

    /// Whether the material is translucent (bit 0).
    pub fn xlu_material(&self) -> (r: bool)
        ensures
            r == bit(self.bits(), 0),
    {
        get_bit(self.0, 0)
    }

    /// Bit 24 of the word.
    pub fn dont_send_tex_matrix(&self) -> (r: bool)
        ensures
            r == bit(self.bits(), 24),
    {
        get_bit(self.0, 24)
    }

    /// Bit 25 of the word.
    pub fn dont_send_uv(&self) -> (r: bool)
        ensures
            r == bit(self.bits(), 25),
    {
        get_bit(self.0, 25)
    }

    /// Bit 26 of the word.
    pub fn dont_send_generator_mode(&self) -> (r: bool)
        ensures
            r == bit(self.bits(), 26),
    {
        get_bit(self.0, 26)
    }

    /// Bit 27 of the word.
    pub fn dont_send_lighting_channel(&self) -> (r: bool)
        ensures
            r == bit(self.bits(), 27),
    {
        get_bit(self.0, 27)
    }

    /// Bit 28 of the word.
    pub fn dont_send_indirect_matrix(&self) -> (r: bool)
        ensures
            r == bit(self.bits(), 28),
    {
        get_bit(self.0, 28)
    }

    /// Bit 29 of the word.
    pub fn dont_send_uv_scale(&self) -> (r: bool)
        ensures
            r == bit(self.bits(), 29),
    {
        get_bit(self.0, 29)
    }

    /// Bit 30 of the word.
    pub fn dont_send_tev_color(&self) -> (r: bool)
        ensures
            r == bit(self.bits(), 30),
    {
        get_bit(self.0, 30)
    }

    /// Bit 31 of the word.
    pub fn dont_send_pixel_display(&self) -> (r: bool)
        ensures
            r == bit(self.bits(), 31),
    {
        get_bit(self.0, 31)
    }
}

impl Deserialize for MaterialFlags {
    fn deserialize(reader: &mut RefCursor) -> (r: EditorResult<Self>)
        ensures
            final(reader).bytes() == old(reader).bytes(),
            ({
                let s = old(reader).bytes();
                let p = old(reader).pos();
                match r {
                    Ok(x) => can_read(s, p, 4) && x.bits() == u32_be(s, p) && final(reader).pos() == p + 4,
                    Err(e) => !can_read(s, p, 4) && e is IoError,
                }
            }),
    {
        let word = reader.read_u32()?;
        Ok(MaterialFlags::from_bits(word))
    }
}

/// Which faces are culled.
#[derive(Debug, Copy, Clone, PartialEq, Eq, Structural)]
pub enum CullMode {
    /// No face is culled (`None` in the terms of the file format).
    Off,
    Front,
    Back,
    All,
}

/// The variant with code `v` (0 to 3).
pub open spec fn cull_mode_of(v: u32) -> CullMode {
    if v == 0 {
        CullMode::Off
    } else if v == 1 {
        CullMode::Front
    } else if v == 2 {
        CullMode::Back
    } else {
        CullMode::All
    }
}

/// The codes that the file format assigns: each code stated here names the value
/// beside it, and every code not listed gives the value of the last line.
pub proof fn lemma_cull_mode_codes()
    ensures
        cull_mode_of(0) == CullMode::Off,
        cull_mode_of(1) == CullMode::Front,
        cull_mode_of(2) == CullMode::Back,
        cull_mode_of(3) == CullMode::All,
        forall|v: u32| !(v == 0 || v == 1 || v == 2) ==> #[trigger] cull_mode_of(v) == CullMode::All,
{
}

impl CullMode {
    /// The variant with code `value`, which must be below 4.
    pub fn try_from(value: u32) -> (r: EditorResult<Self>)
        ensures
            match r {
                Ok(x) => value < 4 && x == cull_mode_of(value as u32),
                Err(e) => value >= 4 && e is Corrupted,
            },
    {
        match value {
            0 => Ok(CullMode::Off),
            1 => Ok(CullMode::Front),
            2 => Ok(CullMode::Back),
            3 => Ok(CullMode::All),
            _ => Err(corrupted(reason_with_value("invalid culling mode: ", value as u64, " (expected 0-3)"), None)),
        }
    }
}

impl Deserialize for CullMode {
    fn deserialize(reader: &mut RefCursor) -> (r: EditorResult<Self>)
        ensures
            final(reader).bytes() == old(reader).bytes(),
            ({
                let s = old(reader).bytes();
                let p = old(reader).pos();
                match r {
                    Ok(x) => can_read(s, p, 4) && u32_be(s, p) < 4 && x == cull_mode_of(u32_be(s, p) as u32) && final(reader).pos() == p + 4,
                    Err(e) => if can_read(s, p, 4) {
                        u32_be(s, p) >= 4 && e is Corrupted
                    } else {
                        e is IoError
                    },
                }
            }),
    {
        let v = reader.read_u32()?;
        Self::try_from(v)
    }
}

/// The method of an indirect texture stage.
#[derive(Debug, Copy, Clone, PartialEq, Eq, Structural)]
pub enum IndirectMethod {
    Wrap,
    NormalMap,
    NormalMapSpecular,
    Fur,
    Reserved1,
    Reserved2,
    User0,
    User1,
}

/// The variant with code `v` (0 to 7).
pub open spec fn indirect_method_of(v: u32) -> IndirectMethod {
    if v == 0 {
        IndirectMethod::Wrap
    } else if v == 1 {
        IndirectMethod::NormalMap
    } else if v == 2 {
        IndirectMethod::NormalMapSpecular
    } else if v == 3 {
        IndirectMethod::Fur
    } else if v == 4 {
        IndirectMethod::Reserved1
    } else if v == 5 {
        IndirectMethod::Reserved2
    } else if v == 6 {
        IndirectMethod::User0
    } else {
        IndirectMethod::User1
    }
}

/// The codes that the file format assigns: each code stated here names the value
/// beside it, and every code not listed gives the value of the last line.
pub proof fn lemma_indirect_method_codes()
    ensures
        indirect_method_of(0) == IndirectMethod::Wrap,
        indirect_method_of(1) == IndirectMethod::NormalMap,
        indirect_method_of(2) == IndirectMethod::NormalMapSpecular,
        indirect_method_of(3) == IndirectMethod::Fur,
        indirect_method_of(4) == IndirectMethod::Reserved1,
        indirect_method_of(5) == IndirectMethod::Reserved2,
        indirect_method_of(6) == IndirectMethod::User0,
        indirect_method_of(7) == IndirectMethod::User1,
        forall|v: u32| !(v == 0 || v == 1 || v == 2 || v == 3 || v == 4 || v == 5 || v == 6) ==> #[trigger] indirect_method_of(v) == IndirectMethod::User1,
{
}

impl IndirectMethod {
    /// The variant with code `value`, which must be below 8.
    pub fn try_from(value: u8) -> (r: EditorResult<Self>)
        ensures
            match r {
                Ok(x) => value < 8 && x == indirect_method_of(value as u32),
                Err(e) => value >= 8 && e is Corrupted,
            },
    {
        match value {
            0 => Ok(IndirectMethod::Wrap),
            1 => Ok(IndirectMethod::NormalMap),
            2 => Ok(IndirectMethod::NormalMapSpecular),
            3 => Ok(IndirectMethod::Fur),
            4 => Ok(IndirectMethod::Reserved1),
            5 => Ok(IndirectMethod::Reserved2),
            6 => Ok(IndirectMethod::User0),
            7 => Ok(IndirectMethod::User1),
            _ => Err(corrupted(reason_with_value("invalid indirect method: ", value as u64, " (expected 0-7)"), None)),
        }
    }
}

impl Deserialize for IndirectMethod {
    fn deserialize(reader: &mut RefCursor) -> (r: EditorResult<Self>)
        ensures
            final(reader).bytes() == old(reader).bytes(),
            ({
                let s = old(reader).bytes();
                let p = old(reader).pos();
                match r {
                    Ok(x) => can_read(s, p, 1) && s[p] < 8 && x == indirect_method_of(s[p] as u32) && final(reader).pos() == p + 1,
                    Err(e) => if can_read(s, p, 1) {
                        s[p] >= 8 && e is Corrupted
                    } else {
                        e is IoError
                    },
                }
            }),
    {
        let v = reader.read_u8()?;
        Self::try_from(v)
    }
}

/// Which of the eight texture maps a material uses.
#[derive(Debug, Copy, Clone, PartialEq, Eq, Structural)]
pub struct UsedTextureMaps(pub u32);

impl UsedTextureMaps {
    /// The word this value is made of.
    pub open spec fn bits(&self) -> u32 {
        self.0
    }

    /// The value made of the word `bits`.
    pub fn from_bits(bits: u32) -> (r: Self)
        ensures
            r.bits() == bits,
    {
        UsedTextureMaps(bits)
    }

    /// The word this value is made of.
    pub fn into_bits(&self) -> (r: u32)
        ensures
            r == self.bits(),
    {
        self.0
    }

    /// Bit 0 of the word.
    pub fn tex0_used(&self) -> (r: bool)
        ensures
            r == bit(self.bits(), 0),
    {
        get_bit(self.0, 0)
    }

    /// Bit 1 of the word.
    pub fn tex1_used(&self) -> (r: bool)
        ensures
            r == bit(self.bits(), 1),
    {
        get_bit(self.0, 1)
    }

    /// Bit 2 of the word.
    pub fn tex2_used(&self) -> (r: bool)
        ensures
            r == bit(self.bits(), 2),
    {
        get_bit(self.0, 2)
    }

    /// Bit 3 of the word.
    pub fn tex3_used(&self) -> (r: bool)
        ensures
            r == bit(self.bits(), 3),
    {
        get_bit(self.0, 3)
    }

    /// Bit 4 of the word.
    pub fn tex4_used(&self) -> (r: bool)
        ensures
            r == bit(self.bits(), 4),
    {
        get_bit(self.0, 4)
    }

    /// Bit 5 of the word.
    pub fn tex5_used(&self) -> (r: bool)
        ensures
            r == bit(self.bits(), 5),
    {
        get_bit(self.0, 5)
    }

    /// Bit 6 of the word.
    pub fn tex6_used(&self) -> (r: bool)
        ensures
            r == bit(self.bits(), 6),
    {
        get_bit(self.0, 6)
    }

    /// Bit 7 of the word.
    pub fn tex7_used(&self) -> (r: bool)
        ensures
            r == bit(self.bits(), 7),
    {
        get_bit(self.0, 7)
    }
}

impl Deserialize for UsedTextureMaps {
    fn deserialize(reader: &mut RefCursor) -> (r: EditorResult<Self>)
        ensures
            final(reader).bytes() == old(reader).bytes(),
            ({
                let s = old(reader).bytes();
                let p = old(reader).pos();
                match r {
                    Ok(x) => can_read(s, p, 4) && x.bits() == u32_be(s, p) && final(reader).pos() == p + 4,
                    Err(e) => !can_read(s, p, 4) && e is IoError,
                }
            }),
    {
        let word = reader.read_u32()?;
        Ok(UsedTextureMaps::from_bits(word))
    }
}

/// Which of the eight palettes a material uses.
#[derive(Debug, Copy, Clone, PartialEq, Eq, Structural)]
pub struct UsedPalettes(pub u32);

impl UsedPalettes {
    /// The word this value is made of.
    pub open spec fn bits(&self) -> u32 {
        self.0
    }

    /// The value made of the word `bits`.
    pub fn from_bits(bits: u32) -> (r: Self)
        ensures
            r.bits() == bits,
    {
        UsedPalettes(bits)
    }

    /// The word this value is made of.
    pub fn into_bits(&self) -> (r: u32)
        ensures
            r == self.bits(),
    {
        self.0
    }

    /// Bit 0 of the word.
    pub fn pal0_used(&self) -> (r: bool)
        ensures
            r == bit(self.bits(), 0),
    {
        get_bit(self.0, 0)
    }

    /// Bit 1 of the word.
    pub fn pal1_used(&self) -> (r: bool)
        ensures
            r == bit(self.bits(), 1),
    {
        get_bit(self.0, 1)
    }

    /// Bit 2 of the word.
    pub fn pal2_used(&self) -> (r: bool)
        ensures
            r == bit(self.bits(), 2),
    {
        get_bit(self.0, 2)
    }

    /// Bit 3 of the word.
    pub fn pal3_used(&self) -> (r: bool)
        ensures
            r == bit(self.bits(), 3),
    {
        get_bit(self.0, 3)
    }

    /// Bit 4 of the word.
    pub fn pal4_used(&self) -> (r: bool)
        ensures
            r == bit(self.bits(), 4),
    {
        get_bit(self.0, 4)
    }

    /// Bit 5 of the word.
    pub fn pal5_used(&self) -> (r: bool)
        ensures
            r == bit(self.bits(), 5),
    {
        get_bit(self.0, 5)
    }

    /// Bit 6 of the word.
    pub fn pal6_used(&self) -> (r: bool)
        ensures
            r == bit(self.bits(), 6),
    {
        get_bit(self.0, 6)
    }

    /// Bit 7 of the word.
    pub fn pal7_used(&self) -> (r: bool)
        ensures
            r == bit(self.bits(), 7),
    {
        get_bit(self.0, 7)
    }
}

impl Deserialize for UsedPalettes {
    fn deserialize(reader: &mut RefCursor) -> (r: EditorResult<Self>)
        ensures
            final(reader).bytes() == old(reader).bytes(),
            ({
                let s = old(reader).bytes();
                let p = old(reader).pos();
                match r {
                    Ok(x) => can_read(s, p, 4) && x.bits() == u32_be(s, p) && final(reader).pos() == p + 4,
                    Err(e) => !can_read(s, p, 4) && e is IoError,
                }
            }),
    {
        let word = reader.read_u32()?;
        Ok(UsedPalettes::from_bits(word))
    }
}

/// Settings of a texture layer.
#[derive(Debug, Copy, Clone, PartialEq, Eq, Structural)]
pub struct LayerSettings(pub u32);

impl LayerSettings {
    /// The word this value is made of.
    pub open spec fn bits(&self) -> u32 {
        self.0
    }

    /// The value made of the word `bits`.
    pub fn from_bits(bits: u32) -> (r: Self)
        ensures
            r.bits() == bits,
    {
        LayerSettings(bits)
    }

    /// The word this value is made of.
    pub fn into_bits(&self) -> (r: u32)
        ensures
            r == self.bits(),
    {
        self.0
    }

    /// Bit 0 of the word.
    pub fn enable_layer(&self) -> (r: bool)
        ensures
            r == bit(self.bits(), 0),
    {
        get_bit(self.0, 0)
    }

    /// Bit 1 of the word.
    pub fn scale_fixed(&self) -> (r: bool)
        ensures
            r == bit(self.bits(), 1),
    {
        get_bit(self.0, 1)
    }

    /// Bit 2 of the word.
    pub fn rotation_fixed(&self) -> (r: bool)
        ensures
            r == bit(self.bits(), 2),
    {
        get_bit(self.0, 2)
    }

    /// Bit 3 of the word.
    pub fn translation_fixed(&self) -> (r: bool)
        ensures
            r == bit(self.bits(), 3),
    {
        get_bit(self.0, 3)
    }
}

impl Deserialize for LayerSettings {
    fn deserialize(reader: &mut RefCursor) -> (r: EditorResult<Self>)
        ensures
            final(reader).bytes() == old(reader).bytes(),
            ({
                let s = old(reader).bytes();
                let p = old(reader).pos();
                match r {
                    Ok(x) => can_read(s, p, 4) && x.bits() == u32_be(s, p) && final(reader).pos() == p + 4,
                    Err(e) => !can_read(s, p, 4) && e is IoError,
                }
            }),
    {
        let word = reader.read_u32()?;
        Ok(LayerSettings::from_bits(word))
    }
}

/// How a texture is mapped onto a surface.
#[derive(Debug, Copy, Clone, PartialEq, Eq, Structural)]
pub enum TextureMapMode {
    Uv,
    EnvCamera,
    Projection,
    EnvLight,
    EnvSpec,
}

/// The variant with code `v` (0 to 4).
pub open spec fn texture_map_mode_of(v: u32) -> TextureMapMode {
    if v == 0 {
        TextureMapMode::Uv
    } else if v == 1 {
        TextureMapMode::EnvCamera
    } else if v == 2 {
        TextureMapMode::Projection
    } else if v == 3 {
        TextureMapMode::EnvLight
    } else {
        TextureMapMode::EnvSpec
    }
}

/// The codes that the file format assigns: each code stated here names the value
/// beside it, and every code not listed gives the value of the last line.
pub proof fn lemma_texture_map_mode_codes()
    ensures
        texture_map_mode_of(0) == TextureMapMode::Uv,
        texture_map_mode_of(1) == TextureMapMode::EnvCamera,
        texture_map_mode_of(2) == TextureMapMode::Projection,
        texture_map_mode_of(3) == TextureMapMode::EnvLight,
        texture_map_mode_of(4) == TextureMapMode::EnvSpec,
        forall|v: u32| !(v == 0 || v == 1 || v == 2 || v == 3) ==> #[trigger] texture_map_mode_of(v) == TextureMapMode::EnvSpec,
{
}

impl TextureMapMode {
    /// The variant with code `value`, which must be below 5.
    pub fn try_from(value: u8) -> (r: EditorResult<Self>)
        ensures
            match r {
                Ok(x) => value < 5 && x == texture_map_mode_of(value as u32),
                Err(e) => value >= 5 && e is Corrupted,
            },
    {
        match value {
            0 => Ok(TextureMapMode::Uv),
            1 => Ok(TextureMapMode::EnvCamera),
            2 => Ok(TextureMapMode::Projection),
            3 => Ok(TextureMapMode::EnvLight),
            4 => Ok(TextureMapMode::EnvSpec),
            _ => Err(corrupted(reason_with_value("invalid texture map mode: ", value as u64, " (expected 0-4)"), None)),
        }
    }
}

impl Deserialize for TextureMapMode {
    fn deserialize(reader: &mut RefCursor) -> (r: EditorResult<Self>)
        ensures
            final(reader).bytes() == old(reader).bytes(),
            ({
                let s = old(reader).bytes();
                let p = old(reader).pos();
                match r {
                    Ok(x) => can_read(s, p, 1) && s[p] < 5 && x == texture_map_mode_of(s[p] as u32) && final(reader).pos() == p + 1,
                    Err(e) => if can_read(s, p, 1) {
                        s[p] >= 5 && e is Corrupted
                    } else {
                        e is IoError
                    },
                }
            }),
    {
        let v = reader.read_u8()?;
        Self::try_from(v)
    }
}

/// Which colors of a lighting channel are enabled.
#[derive(Debug, Copy, Clone, PartialEq, Eq, Structural)]
pub struct LightingChannelFlags(pub u32);

impl LightingChannelFlags {
    /// The word this value is made of.
    pub open spec fn bits(&self) -> u32 {
        self.0
    }

    /// The value made of the word `bits`.
    pub fn from_bits(bits: u32) -> (r: Self)
        ensures
            r.bits() == bits,
    {
        LightingChannelFlags(bits)
    }

    /// The word this value is made of.
    pub fn into_bits(&self) -> (r: u32)
        ensures
            r == self.bits(),
    {
        self.0
    }

    /// Bit 0 of the word.
    pub fn material_color_enabled(&self) -> (r: bool)
        ensures
            r == bit(self.bits(), 0),
    {
        get_bit(self.0, 0)
    }

    /// Bit 1 of the word.
    pub fn material_alpha_enabled(&self) -> (r: bool)
        ensures
            r == bit(self.bits(), 1),
    {
        get_bit(self.0, 1)
    }

    /// Bit 2 of the word.
    pub fn ambient_color_enabled(&self) -> (r: bool)
        ensures
            r == bit(self.bits(), 2),
    {
        get_bit(self.0, 2)
    }

    /// Bit 3 of the word.
    pub fn ambient_alpha_enabled(&self) -> (r: bool)
        ensures
            r == bit(self.bits(), 3),
    {
        get_bit(self.0, 3)
    }

    /// Bit 4 of the word.
    pub fn raster_color_enabled(&self) -> (r: bool)
        ensures
            r == bit(self.bits(), 4),
    {
        get_bit(self.0, 4)
    }

    /// Bit 5 of the word.
    pub fn raster_alpha_enabled(&self) -> (r: bool)
        ensures
            r == bit(self.bits(), 5),
    {
        get_bit(self.0, 5)
    }
}

impl Deserialize for LightingChannelFlags {
    fn deserialize(reader: &mut RefCursor) -> (r: EditorResult<Self>)
        ensures
            final(reader).bytes() == old(reader).bytes(),
            ({
                let s = old(reader).bytes();
                let p = old(reader).pos();
                match r {
                    Ok(x) => can_read(s, p, 4) && x.bits() == u32_be(s, p) && final(reader).pos() == p + 4,
                    Err(e) => !can_read(s, p, 4) && e is IoError,
                }
            }),
    {
        let word = reader.read_u32()?;
        Ok(LightingChannelFlags::from_bits(word))
    }
}

/// The filter used when a texture is drawn smaller than it is.
#[derive(Debug, Copy, Clone, PartialEq, Eq, Structural)]
pub enum MinificationFilter {
    Nearest,
    Linear,
    NearestMipmapNearest,
    LinearMipmapNearest,
    NearestMipmapLinear,
    LinearMipmapLinear,
}

/// The variant with code `v` (0 to 5).
pub open spec fn minification_filter_of(v: u32) -> MinificationFilter {
    if v == 0 {
        MinificationFilter::Nearest
    } else if v == 1 {
        MinificationFilter::Linear
    } else if v == 2 {
        MinificationFilter::NearestMipmapNearest
    } else if v == 3 {
        MinificationFilter::LinearMipmapNearest
    } else if v == 4 {
        MinificationFilter::NearestMipmapLinear
    } else {
        MinificationFilter::LinearMipmapLinear
    }
}

/// The codes that the file format assigns: each code stated here names the value
/// beside it, and every code not listed gives the value of the last line.
pub proof fn lemma_minification_filter_codes()
    ensures
        minification_filter_of(0) == MinificationFilter::Nearest,
        minification_filter_of(1) == MinificationFilter::Linear,
        minification_filter_of(2) == MinificationFilter::NearestMipmapNearest,
        minification_filter_of(3) == MinificationFilter::LinearMipmapNearest,
        minification_filter_of(4) == MinificationFilter::NearestMipmapLinear,
        minification_filter_of(5) == MinificationFilter::LinearMipmapLinear,
        forall|v: u32| !(v == 0 || v == 1 || v == 2 || v == 3 || v == 4) ==> #[trigger] minification_filter_of(v) == MinificationFilter::LinearMipmapLinear,
{
}

impl MinificationFilter {
    /// The variant with code `value`, which must be below 6.
    pub fn try_from(value: u32) -> (r: EditorResult<Self>)
        ensures
            match r {
                Ok(x) => value < 6 && x == minification_filter_of(value as u32),
                Err(e) => value >= 6 && e is Corrupted,
            },
    {
        match value {
            0 => Ok(MinificationFilter::Nearest),
            1 => Ok(MinificationFilter::Linear),
            2 => Ok(MinificationFilter::NearestMipmapNearest),
            3 => Ok(MinificationFilter::LinearMipmapNearest),
            4 => Ok(MinificationFilter::NearestMipmapLinear),
            5 => Ok(MinificationFilter::LinearMipmapLinear),
            _ => Err(corrupted(reason_with_value("invalid minification filter: ", value as u64, " (expected 0-5)"), None)),
        }
    }
}

impl Deserialize for MinificationFilter {
    fn deserialize(reader: &mut RefCursor) -> (r: EditorResult<Self>)
        ensures
            final(reader).bytes() == old(reader).bytes(),
            ({
                let s = old(reader).bytes();
                let p = old(reader).pos();
                match r {
                    Ok(x) => can_read(s, p, 4) && u32_be(s, p) < 6 && x == minification_filter_of(u32_be(s, p) as u32) && final(reader).pos() == p + 4,
                    Err(e) => if can_read(s, p, 4) {
                        u32_be(s, p) >= 6 && e is Corrupted
                    } else {
                        e is IoError
                    },
                }
            }),
    {
        let v = reader.read_u32()?;
        Self::try_from(v)
    }
}

/// The filter used when a texture is drawn larger than it is.
#[derive(Debug, Copy, Clone, PartialEq, Eq, Structural)]
pub enum MagnificationFilter {
    Nearest,
    Linear,
}

/// The variant with code `v` (0 to 1).
pub open spec fn magnification_filter_of(v: u32) -> MagnificationFilter {
    if v == 0 {
        MagnificationFilter::Nearest
    } else {
        MagnificationFilter::Linear
    }
}

/// The codes that the file format assigns: each code stated here names the value
/// beside it, and every code not listed gives the value of the last line.
pub proof fn lemma_magnification_filter_codes()
    ensures
        magnification_filter_of(0) == MagnificationFilter::Nearest,
        magnification_filter_of(1) == MagnificationFilter::Linear,
        forall|v: u32| !(v == 0) ==> #[trigger] magnification_filter_of(v) == MagnificationFilter::Linear,
{
}

impl MagnificationFilter {
    /// The variant with code `value`, which must be below 2.
    pub fn try_from(value: u32) -> (r: EditorResult<Self>)
        ensures
            match r {
                Ok(x) => value < 2 && x == magnification_filter_of(value as u32),
                Err(e) => value >= 2 && e is Corrupted,
            },
    {
        match value {
            0 => Ok(MagnificationFilter::Nearest),
            1 => Ok(MagnificationFilter::Linear),
            _ => Err(corrupted(reason_with_value("invalid magnification filter: ", value as u64, " (expected 0-1)"), None)),
        }
    }
}

impl Deserialize for MagnificationFilter {
    fn deserialize(reader: &mut RefCursor) -> (r: EditorResult<Self>)
        ensures
            final(reader).bytes() == old(reader).bytes(),
            ({
                let s = old(reader).bytes();
                let p = old(reader).pos();
                match r {
                    Ok(x) => can_read(s, p, 4) && u32_be(s, p) < 2 && x == magnification_filter_of(u32_be(s, p) as u32) && final(reader).pos() == p + 4,
                    Err(e) => if can_read(s, p, 4) {
                        u32_be(s, p) >= 2 && e is Corrupted
                    } else {
                        e is IoError
                    },
                }
            }),
    {
        let v = reader.read_u32()?;
        Self::try_from(v)
    }
}

/// The maximum anisotropy of texture filtering.
#[derive(Debug, Copy, Clone, PartialEq, Eq, Structural)]
pub enum AnisotropyFiltering {
    One,
    Two,
    Four,
}

/// The variant with code `v` (0 to 2).
pub open spec fn anisotropy_filtering_of(v: u32) -> AnisotropyFiltering {
    if v == 0 {
        AnisotropyFiltering::One
    } else if v == 1 {
        AnisotropyFiltering::Two
    } else {
        AnisotropyFiltering::Four
    }
}

/// The codes that the file format assigns: each code stated here names the value
/// beside it, and every code not listed gives the value of the last line.
pub proof fn lemma_anisotropy_filtering_codes()
    ensures
        anisotropy_filtering_of(0) == AnisotropyFiltering::One,
        anisotropy_filtering_of(1) == AnisotropyFiltering::Two,
        anisotropy_filtering_of(2) == AnisotropyFiltering::Four,
        forall|v: u32| !(v == 0 || v == 1) ==> #[trigger] anisotropy_filtering_of(v) == AnisotropyFiltering::Four,
{
}

impl AnisotropyFiltering {
    /// The variant with code `value`, which must be below 3.
    pub fn try_from(value: u32) -> (r: EditorResult<Self>)
        ensures
            match r {
                Ok(x) => value < 3 && x == anisotropy_filtering_of(value as u32),
                Err(e) => value >= 3 && e is Corrupted,
            },
    {
        match value {
            0 => Ok(AnisotropyFiltering::One),
            1 => Ok(AnisotropyFiltering::Two),
            2 => Ok(AnisotropyFiltering::Four),
            _ => Err(corrupted(reason_with_value("invalid anisotropy filtering: ", value as u64, " (expected 0-2)"), None)),
        }
    }
}

impl Deserialize for AnisotropyFiltering {
    fn deserialize(reader: &mut RefCursor) -> (r: EditorResult<Self>)
        ensures
            final(reader).bytes() == old(reader).bytes(),
            ({
                let s = old(reader).bytes();
                let p = old(reader).pos();
                match r {
                    Ok(x) => can_read(s, p, 4) && u32_be(s, p) < 3 && x == anisotropy_filtering_of(u32_be(s, p) as u32) && final(reader).pos() == p + 4,
                    Err(e) => if can_read(s, p, 4) {
                        u32_be(s, p) >= 3 && e is Corrupted
                    } else {
                        e is IoError
                    },
                }
            }),
    {
        let v = reader.read_u32()?;
        Self::try_from(v)
    }
}

/// How texture coordinates outside [0, 1] are mapped.
#[derive(Debug, Copy, Clone, PartialEq, Eq, Structural)]
pub enum WrapMode {
    Clamp,
    Repeat,
    Mirror,
}

/// The variant with code `v` (0 to 2).
pub open spec fn wrap_mode_of(v: u32) -> WrapMode {
    if v == 0 {
        WrapMode::Clamp
    } else if v == 1 {
        WrapMode::Repeat
    } else {
        WrapMode::Mirror
    }
}

/// The codes that the file format assigns: each code stated here names the value
/// beside it, and every code not listed gives the value of the last line.
pub proof fn lemma_wrap_mode_codes()
    ensures
        wrap_mode_of(0) == WrapMode::Clamp,
        wrap_mode_of(1) == WrapMode::Repeat,
        wrap_mode_of(2) == WrapMode::Mirror,
        forall|v: u32| !(v == 0 || v == 1) ==> #[trigger] wrap_mode_of(v) == WrapMode::Mirror,
{
}

impl WrapMode {
    /// The variant with code `value`, which must be below 3.
    pub fn try_from(value: u32) -> (r: EditorResult<Self>)
        ensures
            match r {
                Ok(x) => value < 3 && x == wrap_mode_of(value as u32),
                Err(e) => value >= 3 && e is Corrupted,
            },
    {
        match value {
            0 => Ok(WrapMode::Clamp),
            1 => Ok(WrapMode::Repeat),
            2 => Ok(WrapMode::Mirror),
            _ => Err(corrupted(reason_with_value("invalid wrap mode: ", value as u64, " (expected 0-2)"), None)),
        }
    }
}

impl Deserialize for WrapMode {
    fn deserialize(reader: &mut RefCursor) -> (r: EditorResult<Self>)
        ensures
            final(reader).bytes() == old(reader).bytes(),
            ({
                let s = old(reader).bytes();
                let p = old(reader).pos();
                match r {
                    Ok(x) => can_read(s, p, 4) && u32_be(s, p) < 3 && x == wrap_mode_of(u32_be(s, p) as u32) && final(reader).pos() == p + 4,
                    Err(e) => if can_read(s, p, 4) {
                        u32_be(s, p) >= 3 && e is Corrupted
                    } else {
                        e is IoError
                    },
                }
            }),
    {
        let v = reader.read_u32()?;
        Self::try_from(v)
    }
}
/// Position and orientation of a texture layer: bits of single-precision values.
#[derive(Debug, Copy, Clone, PartialEq, Eq)]
pub struct LayerCoordinates {
    pub scale_coordinate: [u32; 2],
    pub rotation_coordinate: u32,
    pub translation_coordinate: [u32; 2],
}

/// Whether `c` holds the layer coordinates stored at `q` of `s`.
pub open spec fn layer_coordinates_is(s: Seq<u8>, q: int, c: LayerCoordinates) -> bool {
    &&& c.scale_coordinate@ == u32s_at(s, q, 2)
    &&& c.rotation_coordinate == u32_be(s, q + 8)
    &&& c.translation_coordinate@ == u32s_at(s, q + 12, 2)
}

/// Where each field of the value lies: the bytes it is read from.
pub proof fn lemma_layer_coordinates_layout(s: Seq<u8>, q: int, c: LayerCoordinates)
    requires
        layer_coordinates_is(s, q, c),
    ensures
        (c.scale_coordinate@ == u32s_at(s, q, 2)),
        (c.rotation_coordinate == u32_be(s, q + 8)),
        (c.translation_coordinate@ == u32s_at(s, q + 12, 2)),
{
}

impl Deserialize for LayerCoordinates {
    fn deserialize(reader: &mut RefCursor) -> (r: EditorResult<Self>)
        ensures
            final(reader).bytes() == old(reader).bytes(),
            ({
                let s = old(reader).bytes();
                let p = old(reader).pos();
                match r {
                    Ok(c) => can_read(s, p, 20) && layer_coordinates_is(s, p, c) && final(reader).pos() == p + 20,
                    Err(e) => !can_read(s, p, 20) && e is IoError,
                }
            }),
    {
        let v = reader.read_u32_vec(5)?;
        let c = LayerCoordinates {
            scale_coordinate: [v[0], v[1]],
            rotation_coordinate: v[2],
            translation_coordinate: [v[3], v[4]],
        };
        let ghost s = old(reader).bytes();
        let ghost p = old(reader).pos();
        assert(c.scale_coordinate@ =~= u32s_at(s, p, 2));
        assert(c.translation_coordinate@ =~= u32s_at(s, p + 12, 2));
        Ok(c)
    }
}

/// How a texture matrix is applied.
#[derive(Debug, Copy, Clone, PartialEq, Eq)]
pub struct TextureMatrixSettings {
    pub scn0_camera_ref: i8,
    pub scn0_light_ref: i8,
    pub map_mode: TextureMapMode,
    pub enable_identity_matrix_effect: bool,
    /// Bits of the single-precision entries of the 3x4 matrix, row by row.
    pub texture_matrix: [u32; 12],
}

/// Where texture matrix settings can be read at `q` of `s`.
pub open spec fn texture_matrix_settings_ok(s: Seq<u8>, q: int) -> bool {
    can_read(s, q, 52) && s[q + 2] < 5
}

/// Whether `e` is the error that reading texture matrix settings at `q` of `s` gives
/// where they cannot be read: a corrupt map mode, else the end of the input.
pub open spec fn texture_matrix_settings_error(s: Seq<u8>, q: int, e: EditorError) -> bool {
    if can_read(s, q, 3) && s[q + 2] >= 5 {
        e is Corrupted
    } else {
        e is IoError
    }
}

/// Whether `t` holds the texture matrix settings stored at `q` of `s`.
pub open spec fn texture_matrix_settings_is(s: Seq<u8>, q: int, t: TextureMatrixSettings) -> bool {
    &&& t.scn0_camera_ref == s[q] as i8
    &&& t.scn0_light_ref == s[q + 1] as i8
    &&& t.map_mode == texture_map_mode_of(s[q + 2] as u32)
    &&& t.enable_identity_matrix_effect == (s[q + 3] != 0)
    &&& t.texture_matrix@ == u32s_at(s, q + 4, 12)
}

/// Where each field of the value lies: the bytes it is read from.
pub proof fn lemma_texture_matrix_settings_layout(s: Seq<u8>, q: int, t: TextureMatrixSettings)
    requires
        texture_matrix_settings_is(s, q, t),
    ensures
        (t.scn0_camera_ref == s[q] as i8),
        (t.scn0_light_ref == s[q + 1] as i8),
        (t.map_mode == texture_map_mode_of(s[q + 2] as u32)),
        (t.enable_identity_matrix_effect == (s[q + 3] != 0)),
        (t.texture_matrix@ == u32s_at(s, q + 4, 12)),
{
}

impl Deserialize for TextureMatrixSettings {
    fn deserialize(reader: &mut RefCursor) -> (r: EditorResult<Self>)
        ensures
            final(reader).bytes() == old(reader).bytes(),
            ({
                let s = old(reader).bytes();
                let p = old(reader).pos();
                match r {
                    Ok(t) => texture_matrix_settings_ok(s, p) && texture_matrix_settings_is(s, p, t) && final(reader).pos()
                        == p + 52,
                    Err(e) => !texture_matrix_settings_ok(s, p) && texture_matrix_settings_error(s, p, e),
                }
            }),
    {
        let scn0_camera_ref = reader.read_i8()?;
        let scn0_light_ref = reader.read_i8()?;
        let map_mode = TextureMapMode::deserialize(reader)?;
        let enable_identity_matrix_effect = reader.read_u8()? != 0;
        let texture_matrix = crate::format::mdl0::bones::read_u32x12(reader)?;
        Ok(TextureMatrixSettings {
            scn0_camera_ref,
            scn0_light_ref,
            map_mode,
            enable_identity_matrix_effect,
            texture_matrix,
        })
    }
}

/// Settings of a lighting channel.
#[derive(Debug, Copy, Clone, PartialEq, Eq)]
pub struct LightChannelSettings {
    pub flags: LightingChannelFlags,
    /// Red, green, blue and alpha bytes.
    pub material_color: [u8; 4],
    /// Red, green, blue and alpha bytes.
    pub ambient_color: [u8; 4],
    pub color_light_channel_control: u32,
    pub alpha_light_channel_control: u32,
}

/// Whether `c` holds the lighting channel settings stored at `q` of `s`.
pub open spec fn light_channel_is(s: Seq<u8>, q: int, c: LightChannelSettings) -> bool {
    &&& c.flags.bits() == u32_be(s, q)
    &&& c.material_color@ == s.subrange(q + 4, q + 8)
    &&& c.ambient_color@ == s.subrange(q + 8, q + 12)
    &&& c.color_light_channel_control == u32_be(s, q + 12)
    &&& c.alpha_light_channel_control == u32_be(s, q + 16)
}

/// Where each field of the value lies: the bytes it is read from.
pub proof fn lemma_light_channel_layout(s: Seq<u8>, q: int, c: LightChannelSettings)
    requires
        light_channel_is(s, q, c),
    ensures
        (c.flags.bits() == u32_be(s, q)),
        (c.material_color@ == s.subrange(q + 4, q + 8)),
        (c.ambient_color@ == s.subrange(q + 8, q + 12)),
        (c.color_light_channel_control == u32_be(s, q + 12)),
        (c.alpha_light_channel_control == u32_be(s, q + 16)),
{
}

impl Deserialize for LightChannelSettings {
    fn deserialize(reader: &mut RefCursor) -> (r: EditorResult<Self>)
        ensures
            final(reader).bytes() == old(reader).bytes(),
            ({
                let s = old(reader).bytes();
                let p = old(reader).pos();
                match r {
                    Ok(c) => can_read(s, p, 20) && light_channel_is(s, p, c) && final(reader).pos() == p + 20,
                    Err(e) => !can_read(s, p, 20) && e is IoError,
                }
            }),
    {
        let flags = LightingChannelFlags::deserialize(reader)?;
        let material_color = reader.read_u8_array4()?;
        let ambient_color = reader.read_u8_array4()?;
        let color_light_channel_control = reader.read_u32()?;
        let alpha_light_channel_control = reader.read_u32()?;
        Ok(LightChannelSettings {
            flags,
            material_color,
            ambient_color,
            color_light_channel_control,
            alpha_light_channel_control,
        })
    }
}

/// The blending state of a material, as five `LoadBP` commands.
#[derive(Debug, Copy, Clone, PartialEq, Eq)]
pub struct MaterialMode {
    pub alpha_fn: AlphaFunction,
    pub depth_test: DepthTest,
    pub write_mask: u32,
    pub blend_mode: BlendMode,
    pub constant_alpha: ConstantAlpha,
}

/// The `LoadBP` command whose opcode is at `q` of `s`, if it is one.
pub open spec fn bp_at(s: Seq<u8>, q: int) -> Option<LoadBpOpCode> {
    if can_read(s, q, 5) && s[q] == 0x61 {
        load_bp_of(s[q + 1], u24_be(s, q + 2))
    } else {
        None
    }
}

/// Where a material mode can be read at `q` of `s`: five `LoadBP` commands setting,
/// in order, the alpha function, depth test, write mask, blend mode and constant alpha.
pub open spec fn material_mode_ok(s: Seq<u8>, q: int) -> bool {
    &&& bp_at(s, q) matches Some(LoadBpOpCode::AlphaFunction(_))
    &&& bp_at(s, q + 5) matches Some(LoadBpOpCode::DepthTest(_))
    &&& bp_at(s, q + 10) matches Some(LoadBpOpCode::WriteMask(_))
    &&& bp_at(s, q + 15) matches Some(LoadBpOpCode::BlendMode(_))
    &&& bp_at(s, q + 20) matches Some(LoadBpOpCode::ConstantAlpha(_))
    &&& q + 32 <= u64::MAX
}

/// Whether `m` is the material mode stored at `q` of `s`.
pub open spec fn material_mode_is(s: Seq<u8>, q: int, m: MaterialMode) -> bool {
    &&& bp_at(s, q) == Some(LoadBpOpCode::AlphaFunction(m.alpha_fn))
    &&& bp_at(s, q + 5) == Some(LoadBpOpCode::DepthTest(m.depth_test))
    &&& bp_at(s, q + 10) == Some(LoadBpOpCode::WriteMask(m.write_mask))
    &&& bp_at(s, q + 15) == Some(LoadBpOpCode::BlendMode(m.blend_mode))
    &&& bp_at(s, q + 20) == Some(LoadBpOpCode::ConstantAlpha(m.constant_alpha))
}

/// Where each field of the value lies: the bytes it is read from.
pub proof fn lemma_material_mode_layout(s: Seq<u8>, q: int, m: MaterialMode)
    requires
        material_mode_is(s, q, m),
    ensures
        (bp_at(s, q) == Some(LoadBpOpCode::AlphaFunction(m.alpha_fn))),
        (bp_at(s, q + 5) == Some(LoadBpOpCode::DepthTest(m.depth_test))),
        (bp_at(s, q + 10) == Some(LoadBpOpCode::WriteMask(m.write_mask))),
        (bp_at(s, q + 15) == Some(LoadBpOpCode::BlendMode(m.blend_mode))),
        (bp_at(s, q + 20) == Some(LoadBpOpCode::ConstantAlpha(m.constant_alpha))),
{
}

/// Whether `e` is the error of the step of reading a material mode at `q` of `s` that
/// expects a `LoadBP` command of the right register: that of reading the command, or a
/// corruption error for a command of another register.
pub open spec fn bp_step_error(s: Seq<u8>, q: int, e: EditorError) -> bool {
    if bp_at(s, q) is None {
        bp_error(s, q, e)
    } else {
        e is Corrupted
    }
}

/// Whether `e` is the error that reading a material mode at `q` of `s` gives where it
/// cannot be read: the error of its first command that is not the expected one (see
/// [`bp_step_error`]), else a corruption error for a position past the largest one.
pub open spec fn material_mode_error(s: Seq<u8>, q: int, e: EditorError) -> bool {
    if !(bp_at(s, q) matches Some(LoadBpOpCode::AlphaFunction(_))) {
        bp_step_error(s, q, e)
    } else if !(bp_at(s, q + 5) matches Some(LoadBpOpCode::DepthTest(_))) {
        bp_step_error(s, q + 5, e)
    } else if !(bp_at(s, q + 10) matches Some(LoadBpOpCode::WriteMask(_))) {
        bp_step_error(s, q + 10, e)
    } else if !(bp_at(s, q + 15) matches Some(LoadBpOpCode::BlendMode(_))) {
        bp_step_error(s, q + 15, e)
    } else if !(bp_at(s, q + 20) matches Some(LoadBpOpCode::ConstantAlpha(_))) {
        bp_step_error(s, q + 20, e)
    } else {
        e is Corrupted
    }
}

/// Reads a `LoadBP` command: its opcode, which must be 0x61, and the register write.
fn read_bp(reader: &mut RefCursor) -> (r: EditorResult<LoadBpOpCode>)
    ensures
        final(reader).bytes() == old(reader).bytes(),
        ({
            let s = old(reader).bytes();
            let p = old(reader).pos();
            match r {
                Ok(op) => bp_at(s, p) == Some(op) && final(reader).pos() == p + 5,
                Err(e) => bp_at(s, p) is None && bp_error(s, p, e),
            }
        }),
{
    let opcode = reader.read_u8()?;
    if opcode != 0x61 {
        return Err(corrupted("expected LoadBP opcode".to_owned(), Some(reader.position())));
    }
    LoadBpOpCode::deserialize(reader)
}

impl Deserialize for MaterialMode {
    fn deserialize(reader: &mut RefCursor) -> (r: EditorResult<Self>)
        ensures
            final(reader).bytes() == old(reader).bytes(),
            ({
                let s = old(reader).bytes();
                let p = old(reader).pos();
                match r {
                    Ok(m) => material_mode_ok(s, p) && material_mode_is(s, p, m) && final(reader).pos() == p + 32,
                    Err(e) => !material_mode_ok(s, p) && material_mode_error(s, p, e),
                }
            }),
    {
        let alpha_fn = match read_bp(reader)? {
            LoadBpOpCode::AlphaFunction(x) => x,
            _ => {
                return Err(corrupted("expected LoadBP opcode of type AlphaFunction (0xf3)".to_owned(), Some(reader.position())));
            },
        };
        let depth_test = match read_bp(reader)? {
            LoadBpOpCode::DepthTest(x) => x,
            _ => {
                return Err(corrupted("expected LoadBP opcode of type DepthTest (0x40)".to_owned(), Some(reader.position())));
            },
        };
        let write_mask = match read_bp(reader)? {
            LoadBpOpCode::WriteMask(x) => x,
            _ => {
                return Err(corrupted("expected LoadBP opcode of type WriteMask (0xFE)".to_owned(), Some(reader.position())));
            },
        };
        let blend_mode = match read_bp(reader)? {
            LoadBpOpCode::BlendMode(x) => x,
            _ => {
                return Err(corrupted("expected LoadBP opcode of type BlendMode (0x41)".to_owned(), Some(reader.position())));
            },
        };
        let constant_alpha = match read_bp(reader)? {
            LoadBpOpCode::ConstantAlpha(x) => x,
            _ => {
                return Err(corrupted("expected LoadBP opcode of type ConstantAlpha (0x42)".to_owned(), Some(reader.position())));
            },
        };
        let at = reader.position();
        if at > u64::MAX - 7 {
            return Err(corrupted("material mode padding overflows".to_owned(), Some(at)));
        }
        reader.set_position(at + 7);
        Ok(MaterialMode { alpha_fn, depth_test, write_mask, blend_mode, constant_alpha })
    }
}

/// A texture that a material refers to, with its sampling settings.
#[derive(Debug, Copy, Clone, PartialEq, Eq)]
pub struct TextureReference {
    pub texture_id: i32,
    pub palette_id: i32,
    pub texture_data_id: u32,
    pub palette_data_id: u32,
    pub uwrap: WrapMode,
    pub vwrap: WrapMode,
    pub min_filter: MinificationFilter,
    pub mag_filter: MagnificationFilter,
    /// Bits of the single-precision level of detail bias.
    pub lod_bias: u32,
    pub max_anisotropy_filtering: AnisotropyFiltering,
    pub clamp_bias: u8,
    pub texel_interpolate: u8,
}

/// Where a texture reference can be read at `q` of `s` (its last two bytes are padding,
/// which is skipped and need not be there).
pub open spec fn texture_reference_ok(s: Seq<u8>, q: int) -> bool {
    &&& can_read(s, q, 50)
    &&& u32_be(s, q + 24) < 3
    &&& u32_be(s, q + 28) < 3
    &&& u32_be(s, q + 32) < 6
    &&& u32_be(s, q + 36) < 2
    &&& u32_be(s, q + 44) < 3
    &&& q + 52 <= u64::MAX
}

/// Whether `e` is the error that reading a texture reference at `q` of `s` gives where
/// it cannot be read: that of its first field, in order, that is cut off by the end of
/// the input or holds an unknown code, else a corruption error for a position past the
/// largest one.
pub open spec fn texture_reference_error(s: Seq<u8>, q: int, e: EditorError) -> bool {
    if !can_read(s, q, 28) {
        e is IoError
    } else if u32_be(s, q + 24) >= 3 {
        e is Corrupted
    } else if !can_read(s, q, 32) {
        e is IoError
    } else if u32_be(s, q + 28) >= 3 {
        e is Corrupted
    } else if !can_read(s, q, 36) {
        e is IoError
    } else if u32_be(s, q + 32) >= 6 {
        e is Corrupted
    } else if !can_read(s, q, 40) {
        e is IoError
    } else if u32_be(s, q + 36) >= 2 {
        e is Corrupted
    } else if !can_read(s, q, 48) {
        e is IoError
    } else if u32_be(s, q + 44) >= 3 {
        e is Corrupted
    } else if !can_read(s, q, 50) {
        e is IoError
    } else {
        e is Corrupted
    }
}

/// Whether `t` is the texture reference stored at `q` of `s`.
pub open spec fn texture_reference_is(s: Seq<u8>, q: int, t: TextureReference) -> bool {
    t == TextureReference {
        texture_id: i32_be(s, q),
        palette_id: i32_be(s, q + 4),
        texture_data_id: u32_be(s, q + 16),
        palette_data_id: u32_be(s, q + 20),
        uwrap: wrap_mode_of(u32_be(s, q + 24)),
        vwrap: wrap_mode_of(u32_be(s, q + 28)),
        min_filter: minification_filter_of(u32_be(s, q + 32)),
        mag_filter: magnification_filter_of(u32_be(s, q + 36)),
        lod_bias: u32_be(s, q + 40),
        max_anisotropy_filtering: anisotropy_filtering_of(u32_be(s, q + 44)),
        clamp_bias: s[q + 48],
        texel_interpolate: s[q + 49],
    }
}

/// Where each field of the value lies: the bytes it is read from.
pub proof fn lemma_texture_reference_layout(s: Seq<u8>, q: int, t: TextureReference)
    requires
        texture_reference_is(s, q, t),
    ensures
        t.texture_id == (i32_be(s, q)),
        t.palette_id == (i32_be(s, q + 4)),
        t.texture_data_id == (u32_be(s, q + 16)),
        t.palette_data_id == (u32_be(s, q + 20)),
        t.uwrap == (wrap_mode_of(u32_be(s, q + 24))),
        t.vwrap == (wrap_mode_of(u32_be(s, q + 28))),
        t.min_filter == (minification_filter_of(u32_be(s, q + 32))),
        t.mag_filter == (magnification_filter_of(u32_be(s, q + 36))),
        t.lod_bias == (u32_be(s, q + 40)),
        t.max_anisotropy_filtering == (anisotropy_filtering_of(u32_be(s, q + 44))),
        t.clamp_bias == (s[q + 48]),
        t.texel_interpolate == (s[q + 49]),
{
}

impl Deserialize for TextureReference {
    fn deserialize(reader: &mut RefCursor) -> (r: EditorResult<Self>)
        ensures
            final(reader).bytes() == old(reader).bytes(),
            ({
                let s = old(reader).bytes();
                let p = old(reader).pos();
                match r {
                    Ok(t) => texture_reference_ok(s, p) && texture_reference_is(s, p, t) && final(reader).pos() == p + 52,
                    Err(e) => !texture_reference_ok(s, p) && texture_reference_error(s, p, e),
                }
            }),
    {
        let texture_id = reader.read_i32()?;
        let palette_id = reader.read_i32()?;
        let _texture_pointer = reader.read_i32()?;
        let _palette_pointer = reader.read_i32()?;
        let texture_data_id = reader.read_u32()?;
        let palette_data_id = reader.read_u32()?;
        let uwrap = WrapMode::deserialize(reader)?;
        let vwrap = WrapMode::deserialize(reader)?;
        let min_filter = MinificationFilter::deserialize(reader)?;
        let mag_filter = MagnificationFilter::deserialize(reader)?;
        let lod_bias = reader.read_u32()?;
        let max_anisotropy_filtering = AnisotropyFiltering::deserialize(reader)?;
        let clamp_bias = reader.read_u8()?;
        let texel_interpolate = reader.read_u8()?;
        let at = reader.position();
        if at > u64::MAX - 2 {
            return Err(corrupted("texture reference padding overflows".to_owned(), Some(at)));
        }
        reader.set_position(at + 2);
        Ok(TextureReference {
            texture_id,
            palette_id,
            texture_data_id,
            palette_data_id,
            uwrap,
            vwrap,
            min_filter,
            mag_filter,
            lod_bias,
            max_anisotropy_filtering,
            clamp_bias,
            texel_interpolate,
        })
    }
}

/// Reads eight consecutive layer coordinate records.
fn read_layer_coordinates8(reader: &mut RefCursor) -> (r: EditorResult<[LayerCoordinates; 8]>)
    ensures
        final(reader).bytes() == old(reader).bytes(),
        ({
            let s = old(reader).bytes();
            let p = old(reader).pos();
            match r {
                Ok(a) => can_read(s, p, 160) && (forall|i: int| 0 <= i < 8 ==> layer_coordinates_is(s, p + 20 * i, #[trigger] a@[i]))
                    && final(reader).pos() == p + 160,
                Err(e) => !can_read(s, p, 160) && e is IoError,
            }
        }),
{
    let ghost s = reader.bytes();
    let ghost p = reader.pos();
    let mut v: Vec<LayerCoordinates> = Vec::new();
    let mut i: usize = 0;
    while i < 8
        invariant
            reader.bytes() == s,
            s == old(reader).bytes(),
            p == old(reader).pos(),
            i <= 8,
            i == 0 || can_read(s, p, 20 * i),
            reader.pos() == p + 20 * i,
            v@.len() == i,
            forall|j: int| 0 <= j < i ==> layer_coordinates_is(s, p + 20 * j, #[trigger] v@[j]),
        decreases 8 - i,
    {
        let c = LayerCoordinates::deserialize(reader)?;
        v.push(c);
        i = i + 1;
    }
    let a = [v[0], v[1], v[2], v[3], v[4], v[5], v[6], v[7]];
    assert(a@ =~= v@);
    Ok(a)
}

/// Reads eight consecutive texture matrix settings.
fn read_texture_matrix_settings8(reader: &mut RefCursor) -> (r: EditorResult<[TextureMatrixSettings; 8]>)
    ensures
        final(reader).bytes() == old(reader).bytes(),
        ({
            let s = old(reader).bytes();
            let p = old(reader).pos();
            match r {
                Ok(a) => (forall|i: int| 0 <= i < 8 ==> #[trigger] texture_matrix_settings_ok(s, p + 52 * i))
                    && (forall|i: int| 0 <= i < 8 ==> texture_matrix_settings_is(s, p + 52 * i, #[trigger] a@[i]))
                    && final(reader).pos() == p + 416,
                Err(e) => exists|i: int|
                    0 <= i < 8 && (forall|j: int| 0 <= j < i ==> #[trigger] texture_matrix_settings_ok(s, p + 52 * j))
                        && !#[trigger] texture_matrix_settings_ok(s, p + 52 * i) && texture_matrix_settings_error(
                        s,
                        p + 52 * i,
                        e,
                    ),
            }
        }),
{
    let ghost s = reader.bytes();
    let ghost p = reader.pos();
    let mut v: Vec<TextureMatrixSettings> = Vec::new();
    let mut i: usize = 0;
    while i < 8
        invariant
            reader.bytes() == s,
            s == old(reader).bytes(),
            p == old(reader).pos(),
            i <= 8,
            reader.pos() == p + 52 * i,
            v@.len() == i,
            forall|j: int| 0 <= j < i ==> #[trigger] texture_matrix_settings_ok(s, p + 52 * j),
            forall|j: int| 0 <= j < i ==> texture_matrix_settings_is(s, p + 52 * j, #[trigger] v@[j]),
        decreases 8 - i,
    {
        let t = match TextureMatrixSettings::deserialize(reader) {
            Ok(t) => t,
            Err(e) => {
                assert(!texture_matrix_settings_ok(s, p + 52 * i));
                assert(0 <= i < 8 && (forall|j: int| 0 <= j < i ==> #[trigger] texture_matrix_settings_ok(s, p + 52 * j)));
                return Err(e);
            },
        };
        v.push(t);
        i = i + 1;
    }
    let a = [v[0], v[1], v[2], v[3], v[4], v[5], v[6], v[7]];
    assert(a@ =~= v@);
    Ok(a)
}

/// A material: its flags and settings, blending state and texture references.
pub struct MaterialBuf {
    pub index: u32,
    pub flags: MaterialFlags,
    pub texture_gen_count: u8,
    pub light_channel_count: u8,
    pub shader_stages: u8,
    pub indirect_shader_stages: u8,
    pub cull_mode: CullMode,
    pub depth_test: u8,
    pub light_set_index: i8,
    pub fog_index: i8,
    pub indirect_methods: [IndirectMethod; 4],
    pub light_normal_map_refs: [i8; 4],
    pub shader_offset: i32,
    pub texture_count: u32,
    pub material_ref_offset: i32,
    pub fur_data_offset: i32,
    pub user_data_offset: i32,
    pub material_bytecode: MaterialMode,
    pub used_texture_maps: UsedTextureMaps,
    pub used_palettes: UsedPalettes,
    pub layer_settings: LayerSettings,
    pub texture_matrix_mode: TextureMatrixMode,
    pub layer_coordinates: [LayerCoordinates; 8],
    pub texture_matrix_settings: [TextureMatrixSettings; 8],
    pub light_channel_settings: [LightChannelSettings; 2],
    pub texture_references: Vec<TextureReference>,
}

/// Position of the material mode of the material at `p`.
pub open spec fn mode_pos(s: Seq<u8>, p: int) -> int {
    (p + i32_be(s, p + 60)) as u64 as int
}

/// Position of the texture references of the material at `p`.
pub open spec fn refs_pos(s: Seq<u8>, p: int) -> int {
    (p + i32_be(s, p + 48)) as u64 as int
}

/// Where the material at `p` of `s` can be read.
pub open spec fn material_ok(s: Seq<u8>, p: int) -> bool {
    &&& can_read(s, p, 1016)
    &&& u32_be(s, p + 24) < 4
    &&& s[p + 32] < 8 && s[p + 33] < 8 && s[p + 34] < 8 && s[p + 35] < 8
    &&& u32_be(s, p + 396) < 3
    &&& forall|i: int| 0 <= i < 8 ==> #[trigger] texture_matrix_settings_ok(s, p + 600 + 52 * i)
    &&& material_mode_ok(s, mode_pos(s, p))
    &&& forall|k: int| 0 <= k < u32_be(s, p + 44) ==> #[trigger] texture_reference_ok(s, refs_pos(s, p) + 52 * k)
}

/// Whether `e` is the error that reading the material at `p` of `s` gives where it
/// cannot be read: that of its first part, in order, that is cut off by the end of the
/// input or holds an unknown code (the fixed fields, the texture matrix settings, the
/// material mode, then the texture references).
pub open spec fn material_error(s: Seq<u8>, p: int, e: EditorError) -> bool {
    let q = refs_pos(s, p);
    if !can_read(s, p, 28) {
        e is IoError
    } else if u32_be(s, p + 24) >= 4 {
        e is Corrupted
    } else if !can_read(s, p, 33) {
        e is IoError
    } else if s[p + 32] >= 8 {
        e is Corrupted
    } else if !can_read(s, p, 34) {
        e is IoError
    } else if s[p + 33] >= 8 {
        e is Corrupted
    } else if !can_read(s, p, 35) {
        e is IoError
    } else if s[p + 34] >= 8 {
        e is Corrupted
    } else if !can_read(s, p, 36) {
        e is IoError
    } else if s[p + 35] >= 8 {
        e is Corrupted
    } else if !can_read(s, p, 400) {
        e is IoError
    } else if u32_be(s, p + 396) >= 3 {
        e is Corrupted
    } else if !can_read(s, p, 600) {
        e is IoError
    } else if !(forall|i: int| 0 <= i < 8 ==> #[trigger] texture_matrix_settings_ok(s, p + 600 + 52 * i)) {
        exists|i: int|
            0 <= i < 8 && (forall|j: int| 0 <= j < i ==> #[trigger] texture_matrix_settings_ok(s, p + 600 + 52 * j))
                && !#[trigger] texture_matrix_settings_ok(s, p + 600 + 52 * i) && texture_matrix_settings_error(
                s,
                p + 600 + 52 * i,
                e,
            )
    } else if !material_mode_ok(s, mode_pos(s, p)) {
        material_mode_error(s, mode_pos(s, p), e)
    } else {
        exists|k: int|
            0 <= k < u32_be(s, p + 44) && (forall|j: int| 0 <= j < k ==> #[trigger] texture_reference_ok(s, q + 52 * j))
                && !#[trigger] texture_reference_ok(s, q + 52 * k) && texture_reference_error(s, q + 52 * k, e)
    }
}

/// Whether `m` is the material stored at `p` of `s`.
pub open spec fn material_is(s: Seq<u8>, p: int, m: MaterialBuf) -> bool {
    &&& m.index == u32_be(s, p + 12)
    &&& m.flags.bits() == u32_be(s, p + 16)
    &&& m.texture_gen_count == s[p + 20]
    &&& m.light_channel_count == s[p + 21]
    &&& m.shader_stages == s[p + 22]
    &&& m.indirect_shader_stages == s[p + 23]
    &&& m.cull_mode == cull_mode_of(u32_be(s, p + 24))
    &&& m.depth_test == s[p + 28]
    &&& m.light_set_index == s[p + 29] as i8
    &&& m.fog_index == s[p + 30] as i8
    &&& forall|i: int| 0 <= i < 4 ==> #[trigger] m.indirect_methods@[i] == indirect_method_of(s[p + 32 + i] as u32)
    &&& forall|i: int| 0 <= i < 4 ==> #[trigger] m.light_normal_map_refs@[i] == s[p + 36 + i] as i8
    &&& m.shader_offset == i32_be(s, p + 40)
    &&& m.texture_count == u32_be(s, p + 44)
    &&& m.material_ref_offset == i32_be(s, p + 48)
    &&& m.fur_data_offset == i32_be(s, p + 52)
    &&& m.user_data_offset == i32_be(s, p + 56)
    &&& m.used_texture_maps.bits() == u32_be(s, p + 64)
    &&& m.used_palettes.bits() == u32_be(s, p + 228)
    &&& m.layer_settings.bits() == u32_be(s, p + 392)
    &&& m.texture_matrix_mode == texture_matrix_mode_of(u32_be(s, p + 396))
    &&& forall|i: int| 0 <= i < 2 ==> light_channel_is(s, p + 400 + 20 * i, #[trigger] m.light_channel_settings@[i])
    &&& forall|i: int| 0 <= i < 8 ==> layer_coordinates_is(s, p + 440 + 20 * i, #[trigger] m.layer_coordinates@[i])
    &&& forall|i: int| 0 <= i < 8 ==> texture_matrix_settings_is(s, p + 600 + 52 * i, #[trigger] m.texture_matrix_settings@[i])
    &&& material_mode_is(s, mode_pos(s, p), m.material_bytecode)
    &&& m.texture_references@.len() == u32_be(s, p + 44)
    &&& forall|k: int| 0 <= k < u32_be(s, p + 44) ==> texture_reference_is(s, refs_pos(s, p) + 52 * k, #[trigger] m.texture_references@[k])
}

/// Where each field of the value lies: the bytes it is read from.
pub proof fn lemma_material_layout(s: Seq<u8>, p: int, m: MaterialBuf)
    requires
        material_is(s, p, m),
    ensures
        (m.index == u32_be(s, p + 12)),
        (m.flags.bits() == u32_be(s, p + 16)),
        (m.texture_gen_count == s[p + 20]),
        (m.light_channel_count == s[p + 21]),
        (m.shader_stages == s[p + 22]),
        (m.indirect_shader_stages == s[p + 23]),
        (m.cull_mode == cull_mode_of(u32_be(s, p + 24))),
        (m.depth_test == s[p + 28]),
        (m.light_set_index == s[p + 29] as i8),
        (m.fog_index == s[p + 30] as i8),
        (forall|i: int| 0 <= i < 4 ==> #[trigger] m.indirect_methods@[i] == indirect_method_of(s[p + 32 + i] as u32)),
        (forall|i: int| 0 <= i < 4 ==> #[trigger] m.light_normal_map_refs@[i] == s[p + 36 + i] as i8),
        (m.shader_offset == i32_be(s, p + 40)),
        (m.texture_count == u32_be(s, p + 44)),
        (m.material_ref_offset == i32_be(s, p + 48)),
        (m.fur_data_offset == i32_be(s, p + 52)),
        (m.user_data_offset == i32_be(s, p + 56)),
        (m.used_texture_maps.bits() == u32_be(s, p + 64)),
        (m.used_palettes.bits() == u32_be(s, p + 228)),
        (m.layer_settings.bits() == u32_be(s, p + 392)),
        (m.texture_matrix_mode == texture_matrix_mode_of(u32_be(s, p + 396))),
        (forall|i: int| 0 <= i < 2 ==> light_channel_is(s, p + 400 + 20 * i, #[trigger] m.light_channel_settings@[i])),
        (forall|i: int| 0 <= i < 8 ==> layer_coordinates_is(s, p + 440 + 20 * i, #[trigger] m.layer_coordinates@[i])),
        (forall|i: int| 0 <= i < 8 ==> texture_matrix_settings_is(s, p + 600 + 52 * i, #[trigger] m.texture_matrix_settings@[i])),
        (material_mode_is(s, mode_pos(s, p), m.material_bytecode)),
        (m.texture_references@.len() == u32_be(s, p + 44)),
        (forall|k: int| 0 <= k < u32_be(s, p + 44) ==> texture_reference_is(s, refs_pos(s, p) + 52 * k, #[trigger] m.texture_references@[k])),
{
}

impl Deserialize for MaterialBuf {
    #[verifier::rlimit(40)]
    fn deserialize(reader: &mut RefCursor) -> (r: EditorResult<Self>)
        ensures
            final(reader).bytes() == old(reader).bytes(),
            ({
                let s = old(reader).bytes();
                let p = old(reader).pos();
                match r {
                    Ok(m) => material_ok(s, p) && material_is(s, p, m) && final(reader).pos() == refs_pos(s, p) + 52
                        * u32_be(s, p + 44),
                    Err(e) => !material_ok(s, p) && material_error(s, p, e),
                }
            }),
    {
        let ghost s = reader.bytes();
        let ghost p = reader.pos();
        let material_start = reader.position();
        let _length = reader.read_u32()?;
        let _mdl0_offset = reader.read_i32()?;
        let _name_offset = reader.read_i32()?;
        let index = reader.read_u32()?;
        let flags = MaterialFlags::deserialize(reader)?;
        let texture_gen_count = reader.read_u8()?;
        let light_channel_count = reader.read_u8()?;
        let shader_stages = reader.read_u8()?;
        let indirect_shader_stages = reader.read_u8()?;
        let cull_mode = CullMode::deserialize(reader)?;
        let depth_test = reader.read_u8()?;
        let light_set_index = reader.read_i8()?;
        let fog_index = reader.read_i8()?;
        let _padding = reader.read_u8()?;
        let m0 = IndirectMethod::deserialize(reader)?;
        let m1 = IndirectMethod::deserialize(reader)?;
        let m2 = IndirectMethod::deserialize(reader)?;
        let m3 = IndirectMethod::deserialize(reader)?;
        let indirect_methods = [m0, m1, m2, m3];
        let r = reader.read_u8_array4()?;
        let light_normal_map_refs = [r[0] as i8, r[1] as i8, r[2] as i8, r[3] as i8];
        let shader_offset = reader.read_i32()?;
        let texture_count = reader.read_u32()?;
        let material_ref_offset = reader.read_i32()?;
        let fur_data_offset = reader.read_i32()?;
        let user_data_offset = reader.read_i32()?;
        let mode_offset = reader.read_i32()?;
        let used_texture_maps = UsedTextureMaps::deserialize(reader)?;
        let _precompiled_texture_code = reader.read_bytes(160)?;
        let used_palettes = UsedPalettes::deserialize(reader)?;
        let _precompiled_palette_code = reader.read_bytes(160)?;
        let layer_settings = LayerSettings::deserialize(reader)?;
        let texture_matrix_mode = TextureMatrixMode::deserialize(reader)?;
        let c0 = LightChannelSettings::deserialize(reader)?;
        let c1 = LightChannelSettings::deserialize(reader)?;
        let light_channel_settings = [c0, c1];
        let layer_coordinates = read_layer_coordinates8(reader)?;
        let ghost tq = reader.pos();
        assert(tq == p + 600);
        let texture_matrix_settings = match read_texture_matrix_settings8(reader) {
            Ok(t) => t,
            Err(e) => {
                proof {
                    let i = choose|i: int|
                        0 <= i < 8 && (forall|j: int| 0 <= j < i ==> #[trigger] texture_matrix_settings_ok(s, tq + 52 * j))
                            && !#[trigger] texture_matrix_settings_ok(s, tq + 52 * i) && texture_matrix_settings_error(
                            s,
                            tq + 52 * i,
                            e,
                        );
                    assert(tq + 52 * i == p + 600 + 52 * i);
                    assert(!texture_matrix_settings_ok(s, p + 600 + 52 * i));
                    assert forall|j: int| 0 <= j < i implies #[trigger] texture_matrix_settings_ok(s, p + 600 + 52 * j) by {
                        assert(tq + 52 * j == p + 600 + 52 * j);
                    }
                }
                return Err(e);
            },
        };
        proof {
            assert forall|i: int| 0 <= i < 8 implies #[trigger] texture_matrix_settings_ok(s, p + 600 + 52 * i) by {
                assert(tq + 52 * i == p + 600 + 52 * i);
                assert(texture_matrix_settings_ok(s, tq + 52 * i));
            }
            assert(texture_matrix_settings_ok(s, p + 600 + 52 * 7));
            assert(can_read(s, p, 1016));
            assert(indirect_methods@[0] == indirect_method_of(s[p + 32 + 0] as u32));
            assert(light_normal_map_refs@[0] == s[p + 36 + 0] as i8);
        }
        let mode_start: i128 = material_start as i128 + mode_offset as i128;
        reader.set_position(mode_start as u64);
        let material_bytecode = MaterialMode::deserialize(reader)?;
        let ref_start: i128 = material_start as i128 + material_ref_offset as i128;
        reader.set_position(ref_start as u64);
        let ghost q = ref_start as u64 as int;
        let mut texture_references: Vec<TextureReference> = Vec::new();
        let mut k: u32 = 0;
        while k < texture_count
            invariant
                reader.bytes() == s,
                s == old(reader).bytes(),
                p == old(reader).pos(),
                q == refs_pos(s, p),
                texture_count == u32_be(s, p + 44),
                can_read(s, p, 1016),
                u32_be(s, p + 24) < 4,
                s[p + 32] < 8 && s[p + 33] < 8 && s[p + 34] < 8 && s[p + 35] < 8,
                u32_be(s, p + 396) < 3,
                forall|i: int| 0 <= i < 8 ==> #[trigger] texture_matrix_settings_ok(s, p + 600 + 52 * i),
                material_mode_ok(s, mode_pos(s, p)),
                k <= texture_count,
                reader.pos() == q + 52 * k,
                texture_references@.len() == k,
                forall|j: int| 0 <= j < k ==> #[trigger] texture_reference_ok(s, q + 52 * j),
                forall|j: int| 0 <= j < k ==> texture_reference_is(s, q + 52 * j, #[trigger] texture_references@[j]),
            decreases texture_count - k,
        {
            let t = match TextureReference::deserialize(reader) {
                Ok(t) => t,
                Err(e) => {
                    assert(!texture_reference_ok(s, q + 52 * k));
                    assert(0 <= k < u32_be(s, p + 44) && (forall|j: int| 0 <= j < k ==> #[trigger] texture_reference_ok(s, q + 52 * j)));
                    return Err(e);
                },
            };
            texture_references.push(t);
            k = k + 1;
        }
        Ok(MaterialBuf {
            index,
            flags,
            texture_gen_count,
            light_channel_count,
            shader_stages,
            indirect_shader_stages,
            cull_mode,
            depth_test,
            light_set_index,
            fog_index,
            indirect_methods,
            light_normal_map_refs,
            shader_offset,
            texture_count,
            material_ref_offset,
            fur_data_offset,
            user_data_offset,
            material_bytecode,
            used_texture_maps,
            used_palettes,
            layer_settings,
            texture_matrix_mode,
            layer_coordinates,
            texture_matrix_settings,
            light_channel_settings,
            texture_references,
        })
    }
}

/// Reads the section of materials at the position of `reader`: a node for each entry
/// of its index group, attached to `parent_id`. Data offsets count from `header_start`,
/// the start of the MDL0 subfile.
pub fn deserialize_virtual(
    reader: &mut RefCursor,
    header_start: u32,
    parent_id: VirtualNodeId,
    node_map: &mut VirtualNodeMap,
) -> (r: EditorResult<VirtualNodeBody>)
    ensures
        final(reader).bytes() == old(reader).bytes(),
        crate::format::mdl0::section::entries_result(
            old(reader).bytes(),
            old(reader).pos(),
            header_start,
            parent_id,
            EntryKind::Materials,
            &*old(node_map),
            &*final(node_map),
            r,
        ),
{
    deserialize_entries(reader, header_start, parent_id, node_map, EntryKind::Materials)
}

} // verus!
