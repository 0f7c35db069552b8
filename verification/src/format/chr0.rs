//! CHR0 subfiles: skeletal animations of the bones of a model.
//!
//! Floating-point values of the format are kept as the bits of their IEEE-754
//! single-precision encoding (`f32::from_bits` turns them into numbers), and the
//! fixed-point frame values as the integers stored in the file.
use vstd::prelude::*;

use crate::error::{corrupted, reason_with_value, unsupported, EditorError, EditorResult};
use crate::format::bits::{bit, field, get_bit, get_field};
use crate::format::brres::{
    entries_at, entry_at, entry_name, entry_name_error, entry_name_ok, index_group_size, subfile_header_error,
    subfile_header_is, subfile_header_ok, subfile_header_size, IndexGroup, IndexGroupEntry, Subfile,
    SubfileHeader, SubfileType,
};
use crate::format::encoding::Deserialize;
use crate::shared::util::{can_read, fixed_read, i32_be, u16_be, u32_be, RefCursor};

verus! {

/// Whether a CHR0 animation plays once or loops.
#[derive(Debug, Copy, Clone, PartialEq, Eq, PartialOrd, Ord)]
pub enum AnimationPolicy {
    OneTime,
    Loop,
}

/// The policy with code `v`, if any.
pub open spec fn policy_of(v: u32) -> Option<AnimationPolicy> {
    if v == 0 {
        Some(AnimationPolicy::OneTime)
    } else if v == 1 {
        Some(AnimationPolicy::Loop)
    } else {
        None
    }
}

/// The codes that the file format assigns: each code stated here names the value
/// beside it, and every code not listed gives the value of the last line.
pub proof fn lemma_policy_codes()
    ensures
        policy_of(0) == Some(AnimationPolicy::OneTime),
        policy_of(1) == Some(AnimationPolicy::Loop),
        forall|v: u32| !(v == 0 || v == 1) ==> #[trigger] policy_of(v) == None::<AnimationPolicy>,
{
}

impl AnimationPolicy {
    /// The policy with code `value` (0 or 1).
    pub fn try_from(value: u32) -> (r: EditorResult<Self>)
        ensures
            match r {
                Ok(v) => policy_of(value) == Some(v),
                Err(e) => policy_of(value) is None && e is Corrupted,
            },
    {
        match value {
            0 => Ok(AnimationPolicy::OneTime),
            1 => Ok(AnimationPolicy::Loop),
            _ => Err(
                corrupted(
                    reason_with_value("invalid animation policy: ", value as u64, " (expected 0 or 1)"),
                    None,
                ),
            ),
        }
    }
}

impl Deserialize for AnimationPolicy {
    fn deserialize(reader: &mut RefCursor) -> (r: EditorResult<Self>)
        ensures
            final(reader).bytes() == old(reader).bytes(),
            ({
                let s = old(reader).bytes();
                let p = old(reader).pos();
                match r {
                    Ok(v) => can_read(s, p, 4) && policy_of(u32_be(s, p)) == Some(v)
                        && final(reader).pos() == p + 4,
                    Err(e) => if !can_read(s, p, 4) {
                        e is IoError
                    } else {
                        policy_of(u32_be(s, p)) is None && e is Corrupted
                    },
                }
            }),
    {
        let policy = reader.read_u32()?;
        Self::try_from(policy)
    }
}

/// The rule by which scales of parent bones apply to their children.
#[derive(Debug, Copy, Clone, PartialEq, Eq, PartialOrd, Ord)]
pub enum ScalingRule {
    Standard,
    Softimage,
    Maya,
}

/// The scaling rule with code `v`, if any.
pub open spec fn scaling_rule_of(v: u32) -> Option<ScalingRule> {
    if v == 0 {
        Some(ScalingRule::Standard)
    } else if v == 1 {
        Some(ScalingRule::Softimage)
    } else if v == 2 {
        Some(ScalingRule::Maya)
    } else {
        None
    }
}

/// The codes that the file format assigns: each code stated here names the value
/// beside it, and every code not listed gives the value of the last line.
pub proof fn lemma_scaling_rule_codes()
    ensures
        scaling_rule_of(0) == Some(ScalingRule::Standard),
        scaling_rule_of(1) == Some(ScalingRule::Softimage),
        scaling_rule_of(2) == Some(ScalingRule::Maya),
        forall|v: u32| !(v == 0 || v == 1 || v == 2) ==> #[trigger] scaling_rule_of(v) == None::<ScalingRule>,
{
}

impl ScalingRule {
    /// The scaling rule with code `value` (0, 1 or 2).
    pub fn try_from(value: u32) -> (r: EditorResult<Self>)
        ensures
            match r {
                Ok(v) => scaling_rule_of(value) == Some(v),
                Err(e) => scaling_rule_of(value) is None && e is Corrupted,
            },
    {
        match value {
            0 => Ok(ScalingRule::Standard),
            1 => Ok(ScalingRule::Softimage),
            2 => Ok(ScalingRule::Maya),
            _ => Err(
                corrupted(
                    reason_with_value("invalid scaling rule: ", value as u64, " (expected 0, 1 or 2)"),
                    None,
                ),
            ),
        }
    }
}

impl Deserialize for ScalingRule {
    fn deserialize(reader: &mut RefCursor) -> (r: EditorResult<Self>)
        ensures
            final(reader).bytes() == old(reader).bytes(),
            ({
                let s = old(reader).bytes();
                let p = old(reader).pos();
                match r {
                    Ok(v) => can_read(s, p, 4) && scaling_rule_of(u32_be(s, p)) == Some(v)
                        && final(reader).pos() == p + 4,
                    Err(e) => if !can_read(s, p, 4) {
                        e is IoError
                    } else {
                        scaling_rule_of(u32_be(s, p)) is None && e is Corrupted
                    },
                }
            }),
    {
        let rule = reader.read_u32()?;
        Self::try_from(rule)
    }
}

/// The CHR0-specific header.
#[derive(Debug, Clone, PartialEq, Eq)]
pub struct Chr0Header {
    pub frame_count: u16,
    pub anim_data_count: u16,
    pub anim_policy: AnimationPolicy,
    pub scaling_rule: ScalingRule,
}

/// Where a CHR0 header at `p` can be read.
pub open spec fn chr0_header_ok(s: Seq<u8>, p: int) -> bool {
    can_read(s, p, 12) && policy_of(u32_be(s, p + 4)) is Some && scaling_rule_of(u32_be(s, p + 8)) is Some
}

/// Whether `e` is the error that reading a CHR0 header at `p` gives where it cannot be
/// read: the end of the input, or a corruption error for an unknown animation policy or
/// scaling rule.
pub open spec fn chr0_header_error(s: Seq<u8>, p: int, e: EditorError) -> bool {
    if !can_read(s, p, 8) {
        e is IoError
    } else if policy_of(u32_be(s, p + 4)) is None {
        e is Corrupted
    } else if !can_read(s, p, 12) {
        e is IoError
    } else {
        e is Corrupted
    }
}

impl Deserialize for Chr0Header {
    fn deserialize(reader: &mut RefCursor) -> (r: EditorResult<Self>)
        ensures
            final(reader).bytes() == old(reader).bytes(),
            ({
                let s = old(reader).bytes();
                let p = old(reader).pos();
                match r {
                    Ok(h) => chr0_header_ok(s, p) && h == (Chr0Header {
                        frame_count: u16_be(s, p),
                        anim_data_count: u16_be(s, p + 2),
                        anim_policy: policy_of(u32_be(s, p + 4))->0,
                        scaling_rule: scaling_rule_of(u32_be(s, p + 8))->0,
                    }) && final(reader).pos() == p + 12,
                    Err(e) => !chr0_header_ok(s, p) && chr0_header_error(s, p, e),
                }
            }),
    {
        let frame_count = reader.read_u16()?;
        let anim_data_count = reader.read_u16()?;
        let anim_policy = AnimationPolicy::deserialize(reader)?;
        let scaling_rule = ScalingRule::deserialize(reader)?;
        Ok(Chr0Header { frame_count, anim_data_count, anim_policy, scaling_rule })
    }
}

/// How the frames of an animated component are stored.
#[derive(Debug, Copy, Clone, PartialEq, Eq, PartialOrd, Ord)]
pub enum AnimationFormat {
    Fixed,
    Interpolated4,
    Interpolated6,
    Interpolated12,
    Linear1,
    Linear4,
    /// Any other bit pattern.
    Invalid,
}

/// The format with bit pattern `b`.
pub open spec fn format_of(b: u32) -> AnimationFormat {
    if b == 0 {
        AnimationFormat::Fixed
    } else if b == 1 {
        AnimationFormat::Interpolated4
    } else if b == 2 {
        AnimationFormat::Interpolated6
    } else if b == 3 {
        AnimationFormat::Interpolated12
    } else if b == 4 {
        AnimationFormat::Linear1
    } else if b == 6 {
        AnimationFormat::Linear4
    } else {
        AnimationFormat::Invalid
    }
}

/// The codes that the file format assigns: each code stated here names the value
/// beside it, and every code not listed gives the value of the last line.
pub proof fn lemma_format_codes()
    ensures
        format_of(0) == AnimationFormat::Fixed,
        format_of(1) == AnimationFormat::Interpolated4,
        format_of(2) == AnimationFormat::Interpolated6,
        format_of(3) == AnimationFormat::Interpolated12,
        format_of(4) == AnimationFormat::Linear1,
        format_of(6) == AnimationFormat::Linear4,
        forall|b: u32| !(b == 0 || b == 1 || b == 2 || b == 3 || b == 4 || b == 6) ==> #[trigger] format_of(b) == AnimationFormat::Invalid,
{
}

/// The bit pattern of a format; `Invalid` has pattern 0b111.
pub open spec fn format_bits(f: AnimationFormat) -> u8 {
    match f {
        AnimationFormat::Fixed => 0,
        AnimationFormat::Interpolated4 => 1,
        AnimationFormat::Interpolated6 => 2,
        AnimationFormat::Interpolated12 => 3,
        AnimationFormat::Linear1 => 4,
        AnimationFormat::Linear4 => 6,
        AnimationFormat::Invalid => 7,
    }
}

/// The bit pattern of each animation format in an animation code: 0 fixed, 1, 2 and 3
/// interpolated with 4, 6 and 12 bytes per frame, 4 and 6 linear, 7 invalid.
pub proof fn lemma_format_bits_codes()
    ensures
        format_bits(AnimationFormat::Fixed) == 0,
        format_bits(AnimationFormat::Interpolated4) == 1,
        format_bits(AnimationFormat::Interpolated6) == 2,
        format_bits(AnimationFormat::Interpolated12) == 3,
        format_bits(AnimationFormat::Linear1) == 4,
        format_bits(AnimationFormat::Linear4) == 6,
        format_bits(AnimationFormat::Invalid) == 7,
{
}

impl AnimationFormat {
    /// The format with bit pattern `bits`; unknown patterns give `Invalid`.
    pub fn from_bits(bits: u8) -> (r: Self)
        ensures
            r == format_of(bits as u32),
    {
        match bits {
            0 => AnimationFormat::Fixed,
            1 => AnimationFormat::Interpolated4,
            2 => AnimationFormat::Interpolated6,
            3 => AnimationFormat::Interpolated12,
            4 => AnimationFormat::Linear1,
            6 => AnimationFormat::Linear4,
            _ => AnimationFormat::Invalid,
        }
    }

    /// The bit pattern of this format.
    pub fn into_bits(&self) -> (r: u8)
        ensures
            r == format_bits(*self),
    {
        match self {
            AnimationFormat::Fixed => 0,
            AnimationFormat::Interpolated4 => 1,
            AnimationFormat::Interpolated6 => 2,
            AnimationFormat::Interpolated12 => 3,
            AnimationFormat::Linear1 => 4,
            AnimationFormat::Linear4 => 6,
            AnimationFormat::Invalid => 7,
        }
    }

    /// Whether the frames are stored linearly (bit 2 of the pattern is set).
    pub fn is_linear(&self) -> (r: bool)
        ensures
            r == (format_bits(*self) & 4u8 != 0),
    {
        self.into_bits() & 4u8 != 0
    }
}

/// Reading the bit pattern of a format back gives the same format.
pub proof fn lemma_format_bits_roundtrip(f: AnimationFormat)
    ensures
        format_of(format_bits(f) as u32) == f,
{
}

/// The flags and formats word of an animated bone.
///
/// Bit 0 is unused; bits 1 to 24 are the flags in the order of the getters below;
/// bits 25-26, 27-29 and 30-31 are the scale, rotation and translation formats.
#[derive(Debug, Copy, Clone, PartialEq, Eq)]
pub struct AnimationCode(u32);

impl AnimationCode {
    pub closed spec fn bits(&self) -> u32 {
        self.0
    }

    pub fn from_bits(bits: u32) -> (r: Self)
        ensures
            r.bits() == bits,
    {
        AnimationCode(bits)
    }

    pub fn into_bits(&self) -> (r: u32)
        ensures
            r == self.bits(),
    {
        self.0
    }

    pub fn use_identity(&self) -> (r: bool)
        ensures
            r == bit(self.bits(), 1),
    {
        get_bit(self.0, 1)
    }

    pub fn rotation_translation_isotropic(&self) -> (r: bool)
        ensures
            r == bit(self.bits(), 2),
    {
        get_bit(self.0, 2)
    }

    pub fn scale_isotropic(&self) -> (r: bool)
        ensures
            r == bit(self.bits(), 3),
    {
        get_bit(self.0, 3)
    }

    pub fn scale_uniform(&self) -> (r: bool)
        ensures
            r == bit(self.bits(), 4),
    {
        get_bit(self.0, 4)
    }

    pub fn rotation_isotropic(&self) -> (r: bool)
        ensures
            r == bit(self.bits(), 5),
    {
        get_bit(self.0, 5)
    }

    pub fn translation_isotropic(&self) -> (r: bool)
        ensures
            r == bit(self.bits(), 6),
    {
        get_bit(self.0, 6)
    }

    pub fn use_model_scale(&self) -> (r: bool)
        ensures
            r == bit(self.bits(), 7),
    {
        get_bit(self.0, 7)
    }

    pub fn use_model_rotation(&self) -> (r: bool)
        ensures
            r == bit(self.bits(), 8),
    {
        get_bit(self.0, 8)
    }

    pub fn use_model_translation(&self) -> (r: bool)
        ensures
            r == bit(self.bits(), 9),
    {
        get_bit(self.0, 9)
    }

    pub fn apply_scale_compensate(&self) -> (r: bool)
        ensures
            r == bit(self.bits(), 10),
    {
        get_bit(self.0, 10)
    }

    pub fn apply_child_scale_compensate(&self) -> (r: bool)
        ensures
            r == bit(self.bits(), 11),
    {
        get_bit(self.0, 11)
    }

    pub fn disable_classic_scale(&self) -> (r: bool)
        ensures
            r == bit(self.bits(), 12),
    {
        get_bit(self.0, 12)
    }

    pub fn scale_x_fixed(&self) -> (r: bool)
        ensures
            r == bit(self.bits(), 13),
    {
        get_bit(self.0, 13)
    }

    pub fn scale_y_fixed(&self) -> (r: bool)
        ensures
            r == bit(self.bits(), 14),
    {
        get_bit(self.0, 14)
    }

    pub fn scale_z_fixed(&self) -> (r: bool)
        ensures
            r == bit(self.bits(), 15),
    {
        get_bit(self.0, 15)
    }

    pub fn rotation_x_fixed(&self) -> (r: bool)
        ensures
            r == bit(self.bits(), 16),
    {
        get_bit(self.0, 16)
    }

    pub fn rotation_y_fixed(&self) -> (r: bool)
        ensures
            r == bit(self.bits(), 17),
    {
        get_bit(self.0, 17)
    }

    pub fn rotation_z_fixed(&self) -> (r: bool)
        ensures
            r == bit(self.bits(), 18),
    {
        get_bit(self.0, 18)
    }

    pub fn x_fixed(&self) -> (r: bool)
        ensures
            r == bit(self.bits(), 19),
    {
        get_bit(self.0, 19)
    }

    pub fn y_fixed(&self) -> (r: bool)
        ensures
            r == bit(self.bits(), 20),
    {
        get_bit(self.0, 20)
    }

    pub fn z_fixed(&self) -> (r: bool)
        ensures
            r == bit(self.bits(), 21),
    {
        get_bit(self.0, 21)
    }

    pub fn has_scale(&self) -> (r: bool)
        ensures
            r == bit(self.bits(), 22),
    {
        get_bit(self.0, 22)
    }

    pub fn has_rotation(&self) -> (r: bool)
        ensures
            r == bit(self.bits(), 23),
    {
        get_bit(self.0, 23)
    }

    pub fn has_translation(&self) -> (r: bool)
        ensures
            r == bit(self.bits(), 24),
    {
        get_bit(self.0, 24)
    }

    pub fn scale_format(&self) -> (r: AnimationFormat)
        ensures
            r == format_of(field(self.bits(), 25, 3)),
    {
        let b = get_field(self.0, 25, 3);
        AnimationFormat::from_bits(b as u8)
    }

    pub fn rotation_format(&self) -> (r: AnimationFormat)
        ensures
            r == format_of(field(self.bits(), 27, 7)),
    {
        let b = get_field(self.0, 27, 7);
        AnimationFormat::from_bits(b as u8)
    }

    pub fn translation_format(&self) -> (r: AnimationFormat)
        ensures
            r == format_of(field(self.bits(), 30, 3)),
    {
        let b = get_field(self.0, 30, 3);
        AnimationFormat::from_bits(b as u8)
    }
}

impl Deserialize for AnimationCode {
    fn deserialize(reader: &mut RefCursor) -> (r: EditorResult<Self>)
        ensures
            final(reader).bytes() == old(reader).bytes(),
            match r {
                Ok(c) => can_read(old(reader).bytes(), old(reader).pos(), 4) && c.bits() == u32_be(
                    old(reader).bytes(),
                    old(reader).pos(),
                ) && final(reader).pos() == old(reader).pos() + 4,
                Err(e) => !can_read(old(reader).bytes(), old(reader).pos(), 4) && e is IoError,
            },
    {
        let word = reader.read_u32()?;
        Ok(AnimationCode::from_bits(word))
    }
}

/// A 4-byte animation frame.
#[derive(Debug, Copy, Clone, PartialEq, Eq)]
pub struct I4Frame {
    /// The index of this frame in the animation (bits 24-31).
    pub index: u8,
    /// Bits 12-19 of the word.
    pub step: u8,
    /// The tangent of the interpolation slope in units of 1/32: the word shifted right by 20.
    pub tangent: u32,
}

/// The frame stored in the word `w`.
pub open spec fn i4_frame_of(w: u32) -> I4Frame {
    I4Frame {
        index: ((w & 0xff000000u32) >> 24u32) as u8,
        step: ((w & 0x00fff000u32) >> 12u32) as u8,
        tangent: w >> 20u32,
    }
}

/// Where each field of the value lies: the bytes (or bits) it is read from.
pub proof fn lemma_i4_frame_layout(w: u32)
    ensures
        i4_frame_of(w).index == (((w & 0xff000000u32) >> 24u32) as u8),
        i4_frame_of(w).step == (((w & 0x00fff000u32) >> 12u32) as u8),
        i4_frame_of(w).tangent == (w >> 20u32),
{
}

impl Deserialize for I4Frame {
    fn deserialize(reader: &mut RefCursor) -> (r: EditorResult<Self>)
        ensures
            final(reader).bytes() == old(reader).bytes(),
            fixed_read(
                r,
                old(reader).bytes(),
                old(reader).pos(),
                4,
                i4_frame_of(u32_be(old(reader).bytes(), old(reader).pos())),
                final(reader).pos(),
            ),
    {
        let word = reader.read_u32()?;
        let index = ((word & 0xff000000u32) >> 24u32) as u8;
        let step = ((word & 0x00fff000u32) >> 12u32) as u8;
        let tangent = word >> 20u32;
        Ok(I4Frame { index, step, tangent })
    }
}

/// A 6-byte animation frame, with the fixed-point values as stored.
#[derive(Debug, Copy, Clone, PartialEq, Eq)]
pub struct I6Frame {
    /// Frame index in units of 1/32.
    pub index: u16,
    pub step: u16,
    /// Tangent in units of 1/256.
    pub tangent: u16,
}

pub open spec fn i6_frame_at(s: Seq<u8>, q: int) -> I6Frame {
    I6Frame { index: u16_be(s, q), step: u16_be(s, q + 2), tangent: u16_be(s, q + 4) }
}

/// Where each field of the value lies: the bytes (or bits) it is read from.
pub proof fn lemma_i6_frame_layout(s: Seq<u8>, q: int)
    ensures
        i6_frame_at(s, q).index == (u16_be(s, q)),
        i6_frame_at(s, q).step == (u16_be(s, q + 2)),
        i6_frame_at(s, q).tangent == (u16_be(s, q + 4)),
{
}

impl Deserialize for I6Frame {
    fn deserialize(reader: &mut RefCursor) -> (r: EditorResult<Self>)
        ensures
            final(reader).bytes() == old(reader).bytes(),
            fixed_read(
                r,
                old(reader).bytes(),
                old(reader).pos(),
                6,
                i6_frame_at(old(reader).bytes(), old(reader).pos()),
                final(reader).pos(),
            ),
    {
        let index = reader.read_u16()?;
        let step = reader.read_u16()?;
        let tangent = reader.read_u16()?;
        Ok(I6Frame { index, step, tangent })
    }
}

/// A 12-byte animation frame of three floats (as bits).
#[derive(Debug, Copy, Clone, PartialEq, Eq)]
pub struct I12Frame {
    pub index: u32,
    pub value: u32,
    pub tangent: u32,
}

pub open spec fn i12_frame_at(s: Seq<u8>, q: int) -> I12Frame {
    I12Frame { index: u32_be(s, q), value: u32_be(s, q + 4), tangent: u32_be(s, q + 8) }
}

/// Where each field of the value lies: the bytes (or bits) it is read from.
pub proof fn lemma_i12_frame_layout(s: Seq<u8>, q: int)
    ensures
        i12_frame_at(s, q).index == (u32_be(s, q)),
        i12_frame_at(s, q).value == (u32_be(s, q + 4)),
        i12_frame_at(s, q).tangent == (u32_be(s, q + 8)),
{
}

impl Deserialize for I12Frame {
    fn deserialize(reader: &mut RefCursor) -> (r: EditorResult<Self>)
        ensures
            final(reader).bytes() == old(reader).bytes(),
            fixed_read(
                r,
                old(reader).bytes(),
                old(reader).pos(),
                12,
                i12_frame_at(old(reader).bytes(), old(reader).pos()),
                final(reader).pos(),
            ),
    {
        let index = reader.read_u32()?;
        let value = reader.read_u32()?;
        let tangent = reader.read_u32()?;
        Ok(I12Frame { index, value, tangent })
    }
}

/// Frames of the interpolated 4-byte format.
#[derive(Debug, Clone, PartialEq)]
pub struct I4Animation {
    pub frame_scale: u32,
    pub step: u32,
    pub base: u32,
    pub frames: Vec<I4Frame>,
}

/// Size of the I4 animation at `q`: a 16-byte header and 4 bytes per frame.
pub open spec fn i4_size(s: Seq<u8>, q: int) -> int {
    16 + 4 * u16_be(s, q)
}

pub open spec fn i4_is(s: Seq<u8>, q: int, a: I4Animation) -> bool {
    &&& a.frame_scale == u32_be(s, q + 4)
    &&& a.step == u32_be(s, q + 8)
    &&& a.base == u32_be(s, q + 12)
    &&& a.frames@ == Seq::new(u16_be(s, q) as nat, |i: int| i4_frame_of(u32_be(s, q + 16 + 4 * i)))
}

/// Where each field of the value lies: the bytes it is read from.
pub proof fn lemma_i4_layout(s: Seq<u8>, q: int, a: I4Animation)
    requires
        i4_is(s, q, a),
    ensures
        (a.frame_scale == u32_be(s, q + 4)),
        (a.step == u32_be(s, q + 8)),
        (a.base == u32_be(s, q + 12)),
        (a.frames@ == Seq::new(u16_be(s, q) as nat, |i: int| i4_frame_of(u32_be(s, q + 16 + 4 * i)))),
{
}

impl Deserialize for I4Animation {
    fn deserialize(reader: &mut RefCursor) -> (r: EditorResult<Self>)
        ensures
            final(reader).bytes() == old(reader).bytes(),
            ({
                let s = old(reader).bytes();
                let p = old(reader).pos();
                match r {
                    Ok(a) => can_read(s, p, i4_size(s, p)) && i4_is(s, p, a) && final(reader).pos()
                        == p + i4_size(s, p),
                    Err(e) => !can_read(s, p, i4_size(s, p)) && e is IoError,
                }
            }),
    {
        let ghost s = reader.bytes();
        let ghost p0 = reader.pos();
        let frame_count = reader.read_u16()?;
        let _unknown1 = reader.read_u16()?;
        let frame_scale = reader.read_u32()?;
        let step = reader.read_u32()?;
        let base = reader.read_u32()?;
        let mut frames: Vec<I4Frame> = Vec::new();
        let mut i: u16 = 0;
        while i < frame_count
            invariant
                reader.bytes() == s,
                s == old(reader).bytes(),
                p0 == old(reader).pos(),
                frame_count == u16_be(s, p0),
                can_read(s, p0, 16 + 4 * i),
                reader.pos() == p0 + 16 + 4 * i,
                i <= frame_count,
                frames@ == Seq::new(i as nat, |k: int| i4_frame_of(u32_be(s, p0 + 16 + 4 * k))),
            decreases frame_count - i,
        {
            let f = match I4Frame::deserialize(reader) {
                Ok(f) => f,
                Err(e) => {
                    return Err(e);
                },
            };
            frames.push(f);
            i = i + 1;
            assert(frames@ =~= Seq::new(i as nat, |k: int| i4_frame_of(u32_be(s, p0 + 16 + 4 * k))));
        }
        Ok(I4Animation { frame_scale, step, base, frames })
    }
}


/// Frames of the interpolated 6-byte format.
#[derive(Debug, Clone, PartialEq)]
pub struct I6Animation {
    pub frame_scale: u32,
    pub step: u32,
    pub base: u32,
    pub frames: Vec<I6Frame>,
}

/// Size of the I6 animation at `q`: a 16-byte header and 6 bytes per frame.
pub open spec fn i6_size(s: Seq<u8>, q: int) -> int {
    16 + 6 * u16_be(s, q)
}

pub open spec fn i6_is(s: Seq<u8>, q: int, a: I6Animation) -> bool {
    &&& a.frame_scale == u32_be(s, q + 4)
    &&& a.step == u32_be(s, q + 8)
    &&& a.base == u32_be(s, q + 12)
    &&& a.frames@ == Seq::new(u16_be(s, q) as nat, |i: int| i6_frame_at(s, q + 16 + 6 * i))
}

/// Where each field of the value lies: the bytes it is read from.
pub proof fn lemma_i6_layout(s: Seq<u8>, q: int, a: I6Animation)
    requires
        i6_is(s, q, a),
    ensures
        (a.frame_scale == u32_be(s, q + 4)),
        (a.step == u32_be(s, q + 8)),
        (a.base == u32_be(s, q + 12)),
        (a.frames@ == Seq::new(u16_be(s, q) as nat, |i: int| i6_frame_at(s, q + 16 + 6 * i))),
{
}

impl Deserialize for I6Animation {
    fn deserialize(reader: &mut RefCursor) -> (r: EditorResult<Self>)
        ensures
            final(reader).bytes() == old(reader).bytes(),
            ({
                let s = old(reader).bytes();
                let p = old(reader).pos();
                match r {
                    Ok(a) => can_read(s, p, i6_size(s, p)) && i6_is(s, p, a) && final(reader).pos()
                        == p + i6_size(s, p),
                    Err(e) => !can_read(s, p, i6_size(s, p)) && e is IoError,
                }
            }),
    {
        let ghost s = reader.bytes();
        let ghost p0 = reader.pos();
        let frame_count = reader.read_u16()?;
        let _unknown1 = reader.read_u16()?;
        let frame_scale = reader.read_u32()?;
        let step = reader.read_u32()?;
        let base = reader.read_u32()?;
        let mut frames: Vec<I6Frame> = Vec::new();
        let mut i: u16 = 0;
        while i < frame_count
            invariant
                reader.bytes() == s,
                s == old(reader).bytes(),
                p0 == old(reader).pos(),
                frame_count == u16_be(s, p0),
                can_read(s, p0, 16 + 6 * i),
                reader.pos() == p0 + 16 + 6 * i,
                i <= frame_count,
                frames@ == Seq::new(i as nat, |k: int| i6_frame_at(s, p0 + 16 + 6 * k)),
            decreases frame_count - i,
        {
            let f = I6Frame::deserialize(reader)?;
            frames.push(f);
            i = i + 1;
            assert(frames@ =~= Seq::new(i as nat, |k: int| i6_frame_at(s, p0 + 16 + 6 * k)));
        }
        Ok(I6Animation { frame_scale, step, base, frames })
    }
}

/// Frames of the interpolated 12-byte format.
#[derive(Debug, Clone, PartialEq)]
pub struct I12Animation {
    pub frame_scale: u32,
    pub frames: Vec<I12Frame>,
}

/// Size of the I12 animation at `q`: an 8-byte header and 12 bytes per frame.
pub open spec fn i12_size(s: Seq<u8>, q: int) -> int {
    8 + 12 * u16_be(s, q)
}

pub open spec fn i12_is(s: Seq<u8>, q: int, a: I12Animation) -> bool {
    &&& a.frame_scale == u32_be(s, q + 4)
    &&& a.frames@ == Seq::new(u16_be(s, q) as nat, |i: int| i12_frame_at(s, q + 8 + 12 * i))
}

/// Where each field of the value lies: the bytes it is read from.
pub proof fn lemma_i12_layout(s: Seq<u8>, q: int, a: I12Animation)
    requires
        i12_is(s, q, a),
    ensures
        (a.frame_scale == u32_be(s, q + 4)),
        (a.frames@ == Seq::new(u16_be(s, q) as nat, |i: int| i12_frame_at(s, q + 8 + 12 * i))),
{
}

impl Deserialize for I12Animation {
    fn deserialize(reader: &mut RefCursor) -> (r: EditorResult<Self>)
        ensures
            final(reader).bytes() == old(reader).bytes(),
            ({
                let s = old(reader).bytes();
                let p = old(reader).pos();
                match r {
                    Ok(a) => can_read(s, p, i12_size(s, p)) && i12_is(s, p, a) && final(reader).pos()
                        == p + i12_size(s, p),
                    Err(e) => !can_read(s, p, i12_size(s, p)) && e is IoError,
                }
            }),
    {
        let ghost s = reader.bytes();
        let ghost p0 = reader.pos();
        let frame_count = reader.read_u16()?;
        let _unknown1 = reader.read_u16()?;
        let frame_scale = reader.read_u32()?;
        let mut frames: Vec<I12Frame> = Vec::new();
        let mut i: u16 = 0;
        while i < frame_count
            invariant
                reader.bytes() == s,
                s == old(reader).bytes(),
                p0 == old(reader).pos(),
                frame_count == u16_be(s, p0),
                can_read(s, p0, 8 + 12 * i),
                reader.pos() == p0 + 8 + 12 * i,
                i <= frame_count,
                frames@ == Seq::new(i as nat, |k: int| i12_frame_at(s, p0 + 8 + 12 * k)),
            decreases frame_count - i,
        {
            let f = I12Frame::deserialize(reader)?;
            frames.push(f);
            i = i + 1;
            assert(frames@ =~= Seq::new(i as nat, |k: int| i12_frame_at(s, p0 + 8 + 12 * k)));
        }
        Ok(I12Animation { frame_scale, frames })
    }
}

/// Frames of the linear 1-byte format: one byte per frame of the animation.
#[derive(Debug, Clone, PartialEq)]
pub struct L1Animation {
    pub step: u32,
    pub base: u32,
    pub frames: Vec<u8>,
}

pub open spec fn l1_is(s: Seq<u8>, q: int, frame_count: u16, a: L1Animation) -> bool {
    &&& a.step == u32_be(s, q)
    &&& a.base == u32_be(s, q + 4)
    &&& a.frames@ == s.subrange(q + 8, q + 8 + frame_count)
}

/// Where each field of the value lies: the bytes it is read from.
pub proof fn lemma_l1_layout(s: Seq<u8>, q: int, frame_count: u16, a: L1Animation)
    requires
        l1_is(s, q, frame_count, a),
    ensures
        (a.step == u32_be(s, q)),
        (a.base == u32_be(s, q + 4)),
        (a.frames@ == s.subrange(q + 8, q + 8 + frame_count)),
{
}

impl L1Animation {
    /// Reads the linear animation; it has as many frames as the CHR0 header says.
    pub fn deserialize(reader: &mut RefCursor, header_frame_count: u16) -> (r: EditorResult<Self>)
        ensures
            final(reader).bytes() == old(reader).bytes(),
            ({
                let s = old(reader).bytes();
                let p = old(reader).pos();
                match r {
                    Ok(a) => can_read(s, p, 8 + header_frame_count) && l1_is(s, p, header_frame_count, a)
                        && final(reader).pos() == p + 8 + header_frame_count,
                    Err(e) => !can_read(s, p, 8 + header_frame_count) && e is IoError,
                }
            }),
    {
        let step = reader.read_u32()?;
        let base = reader.read_u32()?;
        let frames = reader.read_bytes(header_frame_count as u64)?;
        Ok(L1Animation { step, base, frames })
    }
}

/// Frames of the linear 4-byte format (floats, as bits).
#[derive(Debug, Clone, PartialEq)]
pub struct L4Animation {
    pub frames: Vec<u32>,
}

/// The stored frames of an animated component.
#[derive(Debug, Clone, PartialEq)]
pub enum AnimationType {
    Interpolated4(I4Animation),
    Interpolated6(I6Animation),
    Interpolated12(I12Animation),
    Linear1(L1Animation),
    Linear4(L4Animation),
}

/// Whether this crate reads frames of format `f`.
pub open spec fn anim_supported(f: AnimationFormat) -> bool {
    f == AnimationFormat::Interpolated4 || f == AnimationFormat::Interpolated6 || f
        == AnimationFormat::Interpolated12 || f == AnimationFormat::Linear1
}

/// Where frames of format `f` can be read at `q`.
pub open spec fn anim_ok(s: Seq<u8>, q: int, f: AnimationFormat, frame_count: u16) -> bool {
    match f {
        AnimationFormat::Interpolated4 => can_read(s, q, i4_size(s, q)),
        AnimationFormat::Interpolated6 => can_read(s, q, i6_size(s, q)),
        AnimationFormat::Interpolated12 => can_read(s, q, i12_size(s, q)),
        AnimationFormat::Linear1 => can_read(s, q, 8 + frame_count),
        _ => false,
    }
}

/// Whether `t` is the animation of format `f` stored at `q`.
pub open spec fn anim_is(s: Seq<u8>, q: int, f: AnimationFormat, frame_count: u16, t: AnimationType) -> bool {
    match f {
        AnimationFormat::Interpolated4 => t matches AnimationType::Interpolated4(a) && i4_is(s, q, a),
        AnimationFormat::Interpolated6 => t matches AnimationType::Interpolated6(a) && i6_is(s, q, a),
        AnimationFormat::Interpolated12 => t matches AnimationType::Interpolated12(a) && i12_is(s, q, a),
        AnimationFormat::Linear1 => t matches AnimationType::Linear1(a) && l1_is(s, q, frame_count, a),
        _ => false,
    }
}

/// Whether two animations hold the same values.
pub open spec fn anim_same(a: AnimationType, b: AnimationType) -> bool {
    match (a, b) {
        (AnimationType::Interpolated4(x), AnimationType::Interpolated4(y)) => x.frame_scale
            == y.frame_scale && x.step == y.step && x.base == y.base && x.frames@ == y.frames@,
        (AnimationType::Interpolated6(x), AnimationType::Interpolated6(y)) => x.frame_scale
            == y.frame_scale && x.step == y.step && x.base == y.base && x.frames@ == y.frames@,
        (AnimationType::Interpolated12(x), AnimationType::Interpolated12(y)) => x.frame_scale
            == y.frame_scale && x.frames@ == y.frames@,
        (AnimationType::Linear1(x), AnimationType::Linear1(y)) => x.step == y.step && x.base
            == y.base && x.frames@ == y.frames@,
        (AnimationType::Linear4(x), AnimationType::Linear4(y)) => x.frames@ == y.frames@,
        _ => false,
    }
}

fn copy_vec<T: Copy>(v: &Vec<T>) -> (r: Vec<T>)
    ensures
        r@ == v@,
{
    let mut r: Vec<T> = Vec::new();
    let mut i: usize = 0;
    while i < v.len()
        invariant
            i <= v.len(),
            r@ == v@.subrange(0, i as int),
        decreases v.len() - i,
    {
        r.push(v[i]);
        i = i + 1;
        assert(r@ =~= v@.subrange(0, i as int));
    }
    assert(r@ =~= v@);
    r
}

impl AnimationType {
    /// A copy of this animation.
    pub fn clone_anim(&self) -> (r: Self)
        ensures
            anim_same(r, *self),
    {
        match self {
            AnimationType::Interpolated4(a) => AnimationType::Interpolated4(
                I4Animation {
                    frame_scale: a.frame_scale,
                    step: a.step,
                    base: a.base,
                    frames: copy_vec(&a.frames),
                },
            ),
            AnimationType::Interpolated6(a) => AnimationType::Interpolated6(
                I6Animation {
                    frame_scale: a.frame_scale,
                    step: a.step,
                    base: a.base,
                    frames: copy_vec(&a.frames),
                },
            ),
            AnimationType::Interpolated12(a) => AnimationType::Interpolated12(
                I12Animation { frame_scale: a.frame_scale, frames: copy_vec(&a.frames) },
            ),
            AnimationType::Linear1(a) => AnimationType::Linear1(
                L1Animation { step: a.step, base: a.base, frames: copy_vec(&a.frames) },
            ),
            AnimationType::Linear4(a) => AnimationType::Linear4(
                L4Animation { frames: copy_vec(&a.frames) },
            ),
        }
    }
}

/// Whether a component stays fixed or is animated.
#[derive(Debug, Clone, PartialEq)]
pub enum ComponentType {
    /// The bone stays in place throughout the entire animation (a float, as bits).
    Fixed(u32),
    /// The bone is animated.
    Animated(AnimationType),
}

/// Whether two components hold the same values.
pub open spec fn component_same(a: ComponentType, b: ComponentType) -> bool {
    match (a, b) {
        (ComponentType::Fixed(x), ComponentType::Fixed(y)) => x == y,
        (ComponentType::Animated(x), ComponentType::Animated(y)) => anim_same(x, y),
        _ => false,
    }
}

impl ComponentType {
    /// A copy of this component.
    pub fn clone_component(&self) -> (r: Self)
        ensures
            component_same(r, *self),
    {
        match self {
            ComponentType::Fixed(v) => ComponentType::Fixed(*v),
            ComponentType::Animated(t) => ComponentType::Animated(t.clone_anim()),
        }
    }
}

/// Position of frames stored at offset `off` from the bone data at `bone_start`.
pub open spec fn frame_pos(bone_start: u32, off: i32) -> int {
    ((bone_start as i64 + off as i64) as u64) as int
}

/// Where a component (a fixed value, or the offset of its frames) can be read at `q`.
pub open spec fn component_ok(
    s: Seq<u8>,
    q: int,
    fixed: bool,
    bone_start: u32,
    frame_count: u16,
    f: AnimationFormat,
) -> bool {
    can_read(s, q, 4) && (fixed || anim_ok(s, frame_pos(bone_start, i32_be(s, q)), f, frame_count))
}

/// Whether `c` is the component stored at `q`.
pub open spec fn component_is(
    s: Seq<u8>,
    q: int,
    fixed: bool,
    bone_start: u32,
    frame_count: u16,
    f: AnimationFormat,
    c: ComponentType,
) -> bool {
    if fixed {
        c == ComponentType::Fixed(u32_be(s, q))
    } else {
        c matches ComponentType::Animated(t) && anim_is(
            s,
            frame_pos(bone_start, i32_be(s, q)),
            f,
            frame_count,
            t,
        )
    }
}

/// The three components (x, y, z) of a scale, rotation or translation.
#[derive(Debug, Clone, PartialEq)]
pub struct ComponentData {
    pub x: ComponentType,
    pub y: ComponentType,
    pub z: ComponentType,
}

/// Which flags of the animation code describe one of scale, rotation and translation.
pub struct PartFlags {
    pub present: bool,
    pub isotropic: bool,
    pub x_fixed: bool,
    pub y_fixed: bool,
    pub z_fixed: bool,
    pub format: AnimationFormat,
}

/// The flags of the scale part of the code word `w`.
pub open spec fn scale_flags(w: u32) -> PartFlags {
    PartFlags {
        present: bit(w, 22),
        isotropic: bit(w, 3),
        x_fixed: bit(w, 13),
        y_fixed: bit(w, 14),
        z_fixed: bit(w, 15),
        format: format_of(field(w, 25, 3)),
    }
}

/// Where each field of the value lies: the bytes (or bits) it is read from.
pub proof fn lemma_scale_flags_layout(w: u32)
    ensures
        scale_flags(w).present == (bit(w, 22)),
        scale_flags(w).isotropic == (bit(w, 3)),
        scale_flags(w).x_fixed == (bit(w, 13)),
        scale_flags(w).y_fixed == (bit(w, 14)),
        scale_flags(w).z_fixed == (bit(w, 15)),
        scale_flags(w).format == (format_of(field(w, 25, 3))),
{
}

/// The flags of the rotation part of the code word `w`.
pub open spec fn rotation_flags(w: u32) -> PartFlags {
    PartFlags {
        present: bit(w, 23),
        isotropic: bit(w, 5),
        x_fixed: bit(w, 16),
        y_fixed: bit(w, 17),
        z_fixed: bit(w, 18),
        format: format_of(field(w, 27, 7)),
    }
}

/// Where each field of the value lies: the bytes (or bits) it is read from.
pub proof fn lemma_rotation_flags_layout(w: u32)
    ensures
        rotation_flags(w).present == (bit(w, 23)),
        rotation_flags(w).isotropic == (bit(w, 5)),
        rotation_flags(w).x_fixed == (bit(w, 16)),
        rotation_flags(w).y_fixed == (bit(w, 17)),
        rotation_flags(w).z_fixed == (bit(w, 18)),
        rotation_flags(w).format == (format_of(field(w, 27, 7))),
{
}

/// The flags of the translation part of the code word `w`.
pub open spec fn translation_flags(w: u32) -> PartFlags {
    PartFlags {
        present: bit(w, 24),
        isotropic: bit(w, 6),
        x_fixed: bit(w, 19),
        y_fixed: bit(w, 20),
        z_fixed: bit(w, 21),
        format: format_of(field(w, 30, 3)),
    }
}

/// Where each field of the value lies: the bytes (or bits) it is read from.
pub proof fn lemma_translation_flags_layout(w: u32)
    ensures
        translation_flags(w).present == (bit(w, 24)),
        translation_flags(w).isotropic == (bit(w, 6)),
        translation_flags(w).x_fixed == (bit(w, 19)),
        translation_flags(w).y_fixed == (bit(w, 20)),
        translation_flags(w).z_fixed == (bit(w, 21)),
        translation_flags(w).format == (format_of(field(w, 30, 3))),
{
}

/// Bytes that a part with flags `pf` takes in the bone data.
pub open spec fn part_size(pf: PartFlags) -> int {
    if !pf.present {
        0
    } else if pf.isotropic {
        4
    } else {
        12
    }
}

/// Where the components of a present part with flags `pf` can be read at `q`.
pub open spec fn part_ok(s: Seq<u8>, q: int, pf: PartFlags, bone_start: u32, frame_count: u16) -> bool {
    if pf.isotropic {
        component_ok(s, q, pf.x_fixed, bone_start, frame_count, pf.format)
    } else {
        &&& component_ok(s, q, pf.x_fixed, bone_start, frame_count, pf.format)
        &&& component_ok(s, q + 4, pf.y_fixed, bone_start, frame_count, pf.format)
        &&& component_ok(s, q + 8, pf.z_fixed, bone_start, frame_count, pf.format)
    }
}

/// Whether `d` holds the components of a part with flags `pf` stored at `q`; an
/// isotropic part stores one component that holds for all three axes.
pub open spec fn part_is(
    s: Seq<u8>,
    q: int,
    pf: PartFlags,
    bone_start: u32,
    frame_count: u16,
    d: ComponentData,
) -> bool {
    if pf.isotropic {
        &&& component_is(s, q, pf.x_fixed, bone_start, frame_count, pf.format, d.x)
        &&& component_same(d.y, d.x)
        &&& component_same(d.z, d.x)
    } else {
        &&& component_is(s, q, pf.x_fixed, bone_start, frame_count, pf.format, d.x)
        &&& component_is(s, q + 4, pf.y_fixed, bone_start, frame_count, pf.format, d.y)
        &&& component_is(s, q + 8, pf.z_fixed, bone_start, frame_count, pf.format, d.z)
    }
}

/// The components of a part that is not isotropic are stored one after another: x at
/// `q`, y at `q + 4`, z at `q + 8`.
pub proof fn lemma_part_component_order(
    s: Seq<u8>,
    q: int,
    pf: PartFlags,
    bone_start: u32,
    frame_count: u16,
    d: ComponentData,
)
    requires
        part_is(s, q, pf, bone_start, frame_count, d),
        !pf.isotropic,
    ensures
        component_is(s, q, pf.x_fixed, bone_start, frame_count, pf.format, d.x),
        component_is(s, q + 4, pf.y_fixed, bone_start, frame_count, pf.format, d.y),
        component_is(s, q + 8, pf.z_fixed, bone_start, frame_count, pf.format, d.z),
{
}

/// A fixed component is the word stored where it stands.
pub proof fn lemma_fixed_component(
    s: Seq<u8>,
    q: int,
    bone_start: u32,
    frame_count: u16,
    f: AnimationFormat,
    c: ComponentType,
)
    requires
        component_is(s, q, true, bone_start, frame_count, f, c),
    ensures
        c == ComponentType::Fixed(u32_be(s, q)),
{
}

/// Scale, rotation and translation animations of a bone, where present.
#[derive(Debug, Clone, PartialEq)]
pub struct AnimationData {
    pub scale: Option<ComponentData>,
    pub rotation: Option<ComponentData>,
    pub translation: Option<ComponentData>,
}

/// Where the animation data described by code word `w` can be read at `q`.
pub open spec fn anim_data_ok(s: Seq<u8>, q: int, bone_start: u32, frame_count: u16, w: u32) -> bool {
    let (sf, rf, tf) = (scale_flags(w), rotation_flags(w), translation_flags(w));
    &&& sf.present ==> part_ok(s, q, sf, bone_start, frame_count)
    &&& rf.present ==> part_ok(s, q + part_size(sf), rf, bone_start, frame_count)
    &&& tf.present ==> part_ok(s, q + part_size(sf) + part_size(rf), tf, bone_start, frame_count)
}

/// Whether `d` is the animation data described by code word `w` stored at `q`.
pub open spec fn anim_data_is(
    s: Seq<u8>,
    q: int,
    bone_start: u32,
    frame_count: u16,
    w: u32,
    d: AnimationData,
) -> bool {
    let (sf, rf, tf) = (scale_flags(w), rotation_flags(w), translation_flags(w));
    &&& if sf.present {
        d.scale matches Some(x) && part_is(s, q, sf, bone_start, frame_count, x)
    } else {
        d.scale is None
    }
    &&& if rf.present {
        d.rotation matches Some(x) && part_is(s, q + part_size(sf), rf, bone_start, frame_count, x)
    } else {
        d.rotation is None
    }
    &&& if tf.present {
        d.translation matches Some(x) && part_is(
            s,
            q + part_size(sf) + part_size(rf),
            tf,
            bone_start,
            frame_count,
            x,
        )
    } else {
        d.translation is None
    }
}

/// The parts of a bone's animation data come in the order scale, rotation,
/// translation, each right after the ones before it that are present; a part is
/// present exactly where bit 22 (scale), 23 (rotation) or 24 (translation) of the code
/// is set.
pub proof fn lemma_anim_data_order(
    s: Seq<u8>,
    q: int,
    bone_start: u32,
    frame_count: u16,
    w: u32,
    d: AnimationData,
)
    requires
        anim_data_is(s, q, bone_start, frame_count, w, d),
    ensures
        d.scale is Some <==> bit(w, 22),
        d.rotation is Some <==> bit(w, 23),
        d.translation is Some <==> bit(w, 24),
        d.scale matches Some(x) ==> part_is(s, q, scale_flags(w), bone_start, frame_count, x),
        d.rotation matches Some(x) ==> part_is(s, q + part_size(scale_flags(w)), rotation_flags(w), bone_start, frame_count, x),
        d.translation matches Some(x) ==> part_is(
            s,
            q + part_size(scale_flags(w)) + part_size(rotation_flags(w)),
            translation_flags(w),
            bone_start,
            frame_count,
            x,
        ),
{
}

/// Bytes that the animation data described by code word `w` takes.
pub open spec fn anim_data_size(w: u32) -> int {
    part_size(scale_flags(w)) + part_size(rotation_flags(w)) + part_size(translation_flags(w))
}

/// Whether `e` is the error that reading a component at `q` gives where it cannot be
/// read: an unsupported-format error for frames of a format this crate does not read,
/// else the end of the input.
pub open spec fn component_error(s: Seq<u8>, q: int, fixed: bool, f: AnimationFormat, e: EditorError) -> bool {
    if !fixed && can_read(s, q, 4) && !anim_supported(f) {
        e is Unsupported
    } else {
        e is IoError
    }
}

/// Whether `e` is the error that reading a present part with flags `pf` at `q` gives
/// where it cannot be read: that of its first component that cannot be read.
pub open spec fn part_error(s: Seq<u8>, q: int, pf: PartFlags, bone_start: u32, frame_count: u16, e: EditorError) -> bool {
    if pf.isotropic || !component_ok(s, q, pf.x_fixed, bone_start, frame_count, pf.format) {
        component_error(s, q, pf.x_fixed, pf.format, e)
    } else if !component_ok(s, q + 4, pf.y_fixed, bone_start, frame_count, pf.format) {
        component_error(s, q + 4, pf.y_fixed, pf.format, e)
    } else {
        component_error(s, q + 8, pf.z_fixed, pf.format, e)
    }
}

/// Whether `e` is the error that reading the animation data described by code word `w`
/// at `q` gives where it cannot be read: that of its first present part (scale,
/// rotation, translation) that cannot be read.
pub open spec fn anim_data_error(s: Seq<u8>, q: int, bone_start: u32, frame_count: u16, w: u32, e: EditorError) -> bool {
    let (sf, rf, tf) = (scale_flags(w), rotation_flags(w), translation_flags(w));
    if sf.present && !part_ok(s, q, sf, bone_start, frame_count) {
        part_error(s, q, sf, bone_start, frame_count, e)
    } else if rf.present && !part_ok(s, q + part_size(sf), rf, bone_start, frame_count) {
        part_error(s, q + part_size(sf), rf, bone_start, frame_count, e)
    } else {
        part_error(s, q + part_size(sf) + part_size(rf), tf, bone_start, frame_count, e)
    }
}

impl AnimationData {
    /// Reads the offset of the frames of a component and the frames it points to.
    fn deserialize_anim_frame(
        reader: &mut RefCursor,
        bone_data_start: u32,
        header_frame_count: u16,
        format: AnimationFormat,
    ) -> (r: EditorResult<AnimationType>)
        ensures
            final(reader).bytes() == old(reader).bytes(),
            ({
                let s = old(reader).bytes();
                let p = old(reader).pos();
                let fq = frame_pos(bone_data_start, i32_be(s, p));
                match r {
                    Ok(t) => can_read(s, p, 4) && anim_ok(s, fq, format, header_frame_count) && anim_is(
                        s,
                        fq,
                        format,
                        header_frame_count,
                        t,
                    ) && final(reader).pos() == p + 4,
                    Err(e) => !(can_read(s, p, 4) && anim_ok(s, fq, format, header_frame_count)) && (
                    if !can_read(s, p, 4) || anim_supported(format) {
                        e is IoError
                    } else {
                        e is Unsupported
                    }),
                }
            }),
    {
        let orig_position = reader.position();
        let _total = reader.len();
        let frame_offset = reader.read_i32()?;
        let frame_start: i64 = bone_data_start as i64 + frame_offset as i64;
        reader.set_position(frame_start as u64);
        let frames = match format {
            AnimationFormat::Interpolated4 => AnimationType::Interpolated4(I4Animation::deserialize(reader)?),
            AnimationFormat::Interpolated6 => AnimationType::Interpolated6(I6Animation::deserialize(reader)?),
            AnimationFormat::Interpolated12 => AnimationType::Interpolated12(
                I12Animation::deserialize(reader)?,
            ),
            AnimationFormat::Linear1 => AnimationType::Linear1(
                L1Animation::deserialize(reader, header_frame_count)?,
            ),
            _ => {
                return Err(
                    unsupported(
                        reason_with_value("animation frame format ", format.into_bits() as u64, ""),
                        None,
                    ),
                );
            },
        };
        reader.set_position(orig_position + 4);
        Ok(frames)
    }

    /// Reads one component: a fixed float, or the offset of frames of `format`.
    fn deserialize_component(
        reader: &mut RefCursor,
        fixed: bool,
        bone_data_start: u32,
        header_frame_count: u16,
        format: AnimationFormat,
    ) -> (r: EditorResult<ComponentType>)
        ensures
            final(reader).bytes() == old(reader).bytes(),
            ({
                let s = old(reader).bytes();
                let p = old(reader).pos();
                match r {
                    Ok(c) => component_ok(s, p, fixed, bone_data_start, header_frame_count, format)
                        && component_is(s, p, fixed, bone_data_start, header_frame_count, format, c)
                        && final(reader).pos() == p + 4,
                    Err(e) => !component_ok(s, p, fixed, bone_data_start, header_frame_count, format)
                        && component_error(s, p, fixed, format, e),
                }
            }),
    {
        if fixed {
            Ok(ComponentType::Fixed(reader.read_u32()?))
        } else {
            let frame = Self::deserialize_anim_frame(
                reader,
                bone_data_start,
                header_frame_count,
                format,
            )?;
            Ok(ComponentType::Animated(frame))
        }
    }

    /// Reads the components of a present part with flags given one by one.
    fn deserialize_part(
        reader: &mut RefCursor,
        bone_data_start: u32,
        header_frame_count: u16,
        isotropic: bool,
        x_fixed: bool,
        y_fixed: bool,
        z_fixed: bool,
        format: AnimationFormat,
    ) -> (r: EditorResult<ComponentData>)
        ensures
            final(reader).bytes() == old(reader).bytes(),
            ({
                let s = old(reader).bytes();
                let p = old(reader).pos();
                let pf = PartFlags { present: true, isotropic, x_fixed, y_fixed, z_fixed, format };
                match r {
                    Ok(d) => part_ok(s, p, pf, bone_data_start, header_frame_count) && part_is(
                        s,
                        p,
                        pf,
                        bone_data_start,
                        header_frame_count,
                        d,
                    ) && final(reader).pos() == p + part_size(pf),
                    Err(e) => !part_ok(s, p, pf, bone_data_start, header_frame_count) && part_error(
                        s,
                        p,
                        pf,
                        bone_data_start,
                        header_frame_count,
                        e,
                    ),
                }
            }),
    {
        if isotropic {
            let iso = Self::deserialize_component(
                reader,
                x_fixed,
                bone_data_start,
                header_frame_count,
                format,
            )?;
            let x = iso.clone_component();
            let y = iso.clone_component();
            Ok(ComponentData { x, y, z: iso })
        } else {
            let x = Self::deserialize_component(
                reader,
                x_fixed,
                bone_data_start,
                header_frame_count,
                format,
            )?;
            let y = Self::deserialize_component(
                reader,
                y_fixed,
                bone_data_start,
                header_frame_count,
                format,
            )?;
            let z = Self::deserialize_component(
                reader,
                z_fixed,
                bone_data_start,
                header_frame_count,
                format,
            )?;
            Ok(ComponentData { x, y, z })
        }
    }

    fn deserialize_scale(
        reader: &mut RefCursor,
        bone_data_start: u32,
        header_frame_count: u16,
        anim_ty_code: &AnimationCode,
    ) -> (r: EditorResult<ComponentData>)
        ensures
            final(reader).bytes() == old(reader).bytes(),
            ({
                let s = old(reader).bytes();
                let p = old(reader).pos();
                let pf = PartFlags { present: true, ..scale_flags(anim_ty_code.bits()) };
                match r {
                    Ok(d) => part_ok(s, p, pf, bone_data_start, header_frame_count) && part_is(
                        s,
                        p,
                        pf,
                        bone_data_start,
                        header_frame_count,
                        d,
                    ) && final(reader).pos() == p + part_size(pf),
                    Err(e) => !part_ok(s, p, pf, bone_data_start, header_frame_count) && part_error(
                        s,
                        p,
                        pf,
                        bone_data_start,
                        header_frame_count,
                        e,
                    ),
                }
            }),
    {
        Self::deserialize_part(
            reader,
            bone_data_start,
            header_frame_count,
            anim_ty_code.scale_isotropic(),
            anim_ty_code.scale_x_fixed(),
            anim_ty_code.scale_y_fixed(),
            anim_ty_code.scale_z_fixed(),
            anim_ty_code.scale_format(),
        )
    }

    fn deserialize_rotation(
        reader: &mut RefCursor,
        bone_data_start: u32,
        header_frame_count: u16,
        anim_code: &AnimationCode,
    ) -> (r: EditorResult<ComponentData>)
        ensures
            final(reader).bytes() == old(reader).bytes(),
            ({
                let s = old(reader).bytes();
                let p = old(reader).pos();
                let pf = PartFlags { present: true, ..rotation_flags(anim_code.bits()) };
                match r {
                    Ok(d) => part_ok(s, p, pf, bone_data_start, header_frame_count) && part_is(
                        s,
                        p,
                        pf,
                        bone_data_start,
                        header_frame_count,
                        d,
                    ) && final(reader).pos() == p + part_size(pf),
                    Err(e) => !part_ok(s, p, pf, bone_data_start, header_frame_count) && part_error(
                        s,
                        p,
                        pf,
                        bone_data_start,
                        header_frame_count,
                        e,
                    ),
                }
            }),
    {
        Self::deserialize_part(
            reader,
            bone_data_start,
            header_frame_count,
            anim_code.rotation_isotropic(),
            anim_code.rotation_x_fixed(),
            anim_code.rotation_y_fixed(),
            anim_code.rotation_z_fixed(),
            anim_code.rotation_format(),
        )
    }

    fn deserialize_translation(
        reader: &mut RefCursor,
        bone_data_start: u32,
        header_frame_count: u16,
        anim_code: &AnimationCode,
    ) -> (r: EditorResult<ComponentData>)
        ensures
            final(reader).bytes() == old(reader).bytes(),
            ({
                let s = old(reader).bytes();
                let p = old(reader).pos();
                let pf = PartFlags { present: true, ..translation_flags(anim_code.bits()) };
                match r {
                    Ok(d) => part_ok(s, p, pf, bone_data_start, header_frame_count) && part_is(
                        s,
                        p,
                        pf,
                        bone_data_start,
                        header_frame_count,
                        d,
                    ) && final(reader).pos() == p + part_size(pf),
                    Err(e) => !part_ok(s, p, pf, bone_data_start, header_frame_count) && part_error(
                        s,
                        p,
                        pf,
                        bone_data_start,
                        header_frame_count,
                        e,
                    ),
                }
            }),
    {
        Self::deserialize_part(
            reader,
            bone_data_start,
            header_frame_count,
            anim_code.translation_isotropic(),
            anim_code.x_fixed(),
            anim_code.y_fixed(),
            anim_code.z_fixed(),
            anim_code.translation_format(),
        )
    }

    /// Reads the scale, rotation and translation parts that the code says are present, in that order.
    pub fn deserialize(
        reader: &mut RefCursor,
        bone_data_start: u32,
        header_frame_count: u16,
        anim_code: &AnimationCode,
    ) -> (r: EditorResult<Self>)
        ensures
            final(reader).bytes() == old(reader).bytes(),
            ({
                let s = old(reader).bytes();
                let p = old(reader).pos();
                let w = anim_code.bits();
                match r {
                    Ok(d) => anim_data_ok(s, p, bone_data_start, header_frame_count, w) && anim_data_is(
                        s,
                        p,
                        bone_data_start,
                        header_frame_count,
                        w,
                        d,
                    ) && final(reader).pos() == p + anim_data_size(w),
                    Err(e) => !anim_data_ok(s, p, bone_data_start, header_frame_count, w) && anim_data_error(
                        s,
                        p,
                        bone_data_start,
                        header_frame_count,
                        w,
                        e,
                    ),
                }
            }),
    {
        let scale = if anim_code.has_scale() {
            Some(Self::deserialize_scale(reader, bone_data_start, header_frame_count, anim_code)?)
        } else {
            None
        };
        let rotation = if anim_code.has_rotation() {
            Some(Self::deserialize_rotation(reader, bone_data_start, header_frame_count, anim_code)?)
        } else {
            None
        };
        let translation = if anim_code.has_translation() {
            Some(
                Self::deserialize_translation(reader, bone_data_start, header_frame_count, anim_code)?,
            )
        } else {
            None
        };
        Ok(AnimationData { scale, rotation, translation })
    }
}


/// The animation of one bone.
#[derive(Debug, Clone, PartialEq)]
pub struct AnimatedBone {
    /// Name of the bone that this animates.
    pub name: String,
    pub anim_code: AnimationCode,
    pub anim_data: AnimationData,
}

/// Where the bone animation at `q` can be read: the name offset, the code word and
/// the data that it describes.
pub open spec fn animated_bone_ok(s: Seq<u8>, q: int, frame_count: u16) -> bool {
    can_read(s, q, 8) && anim_data_ok(s, q + 8, q as u32, frame_count, u32_be(s, q + 4))
}

/// Whether `b` is the animation of the bone whose data starts at `q`.
pub open spec fn animated_bone_is(s: Seq<u8>, q: int, frame_count: u16, b: AnimatedBone) -> bool {
    b.anim_code.bits() == u32_be(s, q + 4) && anim_data_is(
        s,
        q + 8,
        q as u32,
        frame_count,
        u32_be(s, q + 4),
        b.anim_data,
    )
}

impl AnimatedBone {
    /// Reads the animation of the bone named `name`, whose data starts at `bone_data_start`
    /// (the current position).
    pub fn deserialize(
        reader: &mut RefCursor,
        bone_data_start: u32,
        header_frame_count: u16,
        name: String,
    ) -> (r: EditorResult<Self>)
        ensures
            final(reader).bytes() == old(reader).bytes(),
            ({
                let s = old(reader).bytes();
                let p = old(reader).pos();
                let w = u32_be(s, p + 4);
                match r {
                    Ok(b) => can_read(s, p, 8) && anim_data_ok(s, p + 8, bone_data_start, header_frame_count, w)
                        && b.name@ == name@ && b.anim_code.bits() == w && anim_data_is(
                        s,
                        p + 8,
                        bone_data_start,
                        header_frame_count,
                        w,
                        b.anim_data,
                    ) && final(reader).pos() == p + 8 + anim_data_size(w),
                    Err(e) => !(can_read(s, p, 8) && anim_data_ok(
                        s,
                        p + 8,
                        bone_data_start,
                        header_frame_count,
                        w,
                    )) && (if !can_read(s, p, 8) {
                        e is IoError
                    } else {
                        anim_data_error(s, p + 8, bone_data_start, header_frame_count, w, e)
                    }),
                }
            }),
    {
        // The name offset points to the same string as the index group entry, so it is not needed.
        let _bone_name_offset = reader.read_u32()?;
        let anim_code = AnimationCode::deserialize(reader)?;
        let anim_data = AnimationData::deserialize(
            reader,
            bone_data_start,
            header_frame_count,
            &anim_code,
        )?;
        Ok(AnimatedBone { name, anim_code, anim_data })
    }
}

/// A CHR0 subfile: character model animations, based on the bones of the character.
#[derive(Debug, Clone, PartialEq)]
pub struct Chr0Subfile {
    /// General header for BRRES subfiles.
    pub subfile_header: SubfileHeader,
    /// CHR0-specific header data.
    pub chr0_header: Chr0Header,
    /// Per-bone animation data.
    pub bones: Vec<AnimatedBone>,
    /// This index group lists all the individual bones in the CHR0 file.
    pub bones_group: IndexGroup,
}

/// Magic of a CHR0 subfile ("CHR0").
pub const CHR0_MAGIC: [u8; 4] = [0x43, 0x48, 0x52, 0x30];

impl Subfile for Chr0Subfile {
    fn magic() -> (m: [u8; 4])
        ensures
            m == CHR0_MAGIC,
    {
        CHR0_MAGIC
    }
}

/// Where the bone of entry `e` of a CHR0 bone group that starts at `g` can be read.
pub open spec fn chr0_bone_ok(s: Seq<u8>, g: u32, e: IndexGroupEntry, frame_count: u16) -> bool {
    &&& entry_name_ok(s, g, e)
    &&& g + e.data_pointer <= u32::MAX
    &&& animated_bone_ok(s, g + e.data_pointer, frame_count)
}

/// Whether `b` is the bone of entry `e` of a CHR0 bone group that starts at `g`.
pub open spec fn chr0_bone_is(s: Seq<u8>, g: u32, e: IndexGroupEntry, frame_count: u16, b: AnimatedBone) -> bool {
    &&& b.name@ == entry_name(s, g, e)
    &&& animated_bone_is(s, g + e.data_pointer, frame_count, b)
}

/// Where each field of the value lies: the bytes it is read from.
pub proof fn lemma_chr0_bone_layout(s: Seq<u8>, g: u32, e: IndexGroupEntry, frame_count: u16, b: AnimatedBone)
    requires
        chr0_bone_is(s, g, e, frame_count, b),
    ensures
        (b.name@ == entry_name(s, g, e)),
        (animated_bone_is(s, g + e.data_pointer, frame_count, b)),
{
}

/// Whether `e` is the error that reading the bone of entry `e` of a CHR0 bone group
/// that starts at `g` gives where it cannot be read (see [`chr0_bone_ok`]): that of its
/// name, a corruption error for a data position past the largest one, the end of the
/// input within its name offset and code word, else that of its animation data.
pub open spec fn chr0_bone_error(s: Seq<u8>, g: u32, entry: IndexGroupEntry, frame_count: u16, e: EditorError) -> bool {
    let q = g + entry.data_pointer;
    if !entry_name_ok(s, g, entry) {
        entry_name_error(s, g, entry, e)
    } else if !(q <= u32::MAX) {
        e is Corrupted
    } else if !can_read(s, q, 8) {
        e is IoError
    } else {
        anim_data_error(s, q + 8, q as u32, frame_count, u32_be(s, q + 4), e)
    }
}

/// Whether `e` is the error that reading the CHR0 subfile whose header is at `p` gives
/// where it cannot be read (see [`chr0_subfile_ok`]): that of its subfile header, a
/// corruption error for a CHR0 header past the largest position, that of its CHR0
/// header, the end of the input within its bone group, else that of its first bone that
/// cannot be read.
pub open spec fn chr0_subfile_error(s: Seq<u8>, p: int, e: EditorError) -> bool {
    let q1 = p + subfile_header_size(s, p, SubfileType::Chr0) + 4;
    let q2 = q1 + 12;
    if !subfile_header_ok(s, p, SubfileType::Chr0) {
        subfile_header_error(s, p, SubfileType::Chr0, e)
    } else if !(q1 <= u64::MAX) {
        e is Corrupted
    } else if !chr0_header_ok(s, q1) {
        chr0_header_error(s, q1, e)
    } else if !can_read(s, q2, index_group_size(s, q2)) {
        e is IoError
    } else {
        exists|i: int|
            1 <= i <= u32_be(s, q2 + 4) && (forall|j: int|
                1 <= j < i ==> chr0_bone_ok(s, q2 as u32, #[trigger] entry_at(s, q2 + 8 + 16 * j), u16_be(s, q1)))
                && !chr0_bone_ok(s, q2 as u32, #[trigger] entry_at(s, q2 + 8 + 16 * i), u16_be(s, q1))
                && chr0_bone_error(s, q2 as u32, entry_at(s, q2 + 8 + 16 * i), u16_be(s, q1), e)
    }
}

/// Where the CHR0 subfile whose header is at `p` (just after the magic) can be read.
pub open spec fn chr0_subfile_ok(s: Seq<u8>, p: int) -> bool {
    let q1 = p + subfile_header_size(s, p, SubfileType::Chr0) + 4;
    let q2 = q1 + 12;
    &&& subfile_header_ok(s, p, SubfileType::Chr0)
    &&& q1 <= u64::MAX
    &&& chr0_header_ok(s, q1)
    &&& can_read(s, q2, index_group_size(s, q2))
    &&& forall|i: int|
        1 <= i <= u32_be(s, q2 + 4) ==> chr0_bone_ok(
            s,
            q2 as u32,
            #[trigger] entry_at(s, q2 + 8 + 16 * i),
            u16_be(s, q1),
        )
}

impl Chr0Subfile {
    /// Reads a CHR0 subfile; the cursor must be just after its magic.
    ///
    /// All entries of the bone group but the first (the dummy root entry) are read,
    /// in the order of the group.
    pub fn deserialize(reader: &mut RefCursor) -> (r: EditorResult<Self>)
        ensures
            final(reader).bytes() == old(reader).bytes(),
            ({
                let s = old(reader).bytes();
                let p = old(reader).pos();
                let q1 = p + subfile_header_size(s, p, SubfileType::Chr0) + 4;
                let q2 = q1 + 12;
                match r {
                    Ok(c) => {
                        &&& subfile_header_ok(s, p, SubfileType::Chr0)
                        &&& subfile_header_is(s, p, SubfileType::Chr0, c.subfile_header)
                        &&& chr0_header_ok(s, q1)
                        &&& c.chr0_header.frame_count == u16_be(s, q1)
                        &&& can_read(s, q2, index_group_size(s, q2))
                        &&& c.bones_group.group_start == q2 as u32
                        &&& c.bones_group.entries@ == entries_at(s, q2 + 8, (u32_be(s, q2 + 4) + 1) as nat)
                        &&& c.bones@.len() == c.bones_group.entries@.len() - 1
                        &&& forall|i: int|
                            0 <= i < c.bones@.len() ==> chr0_bone_ok(
                                s,
                                q2 as u32,
                                #[trigger] c.bones_group.entries@[i + 1],
                                c.chr0_header.frame_count,
                            ) && chr0_bone_is(
                                s,
                                q2 as u32,
                                c.bones_group.entries@[i + 1],
                                c.chr0_header.frame_count,
                                c.bones@[i],
                            )
                    },
                    Err(e) => !chr0_subfile_ok(s, p) && chr0_subfile_error(s, p, e),
                }
            }),
    {
        let subfile_header = SubfileHeader::deserialize(reader, SubfileType::Chr0)?;
        // There are 4 bytes of padding between the headers.
        let skip = match reader.position().checked_add(4) {
            Some(v) => v,
            None => {
                return Err(corrupted("CHR0 header lies past the end of the input".to_owned(), None));
            },
        };
        reader.set_position(skip);
        let ghost s = reader.bytes();
        let ghost q1 = reader.pos();
        let chr0_header = Chr0Header::deserialize(reader)?;
        let ghost g0 = reader.pos();
        let bones_group = IndexGroup::deserialize(reader)?;
        let ghost g = bones_group.group_start;
        let fc = chr0_header.frame_count;
        let mut bones: Vec<AnimatedBone> = Vec::new();
        let n = bones_group.entries.len();
        let mut i: usize = 1;
        while i < n
            invariant
                reader.bytes() == s,
                s == old(reader).bytes(),
                n == bones_group.entries@.len(),
                1 <= i <= n,
                g == bones_group.group_start,
                g == g0 as u32,
                q1 == old(reader).pos() + subfile_header_size(s, old(reader).pos(), SubfileType::Chr0) + 4,
                g0 == q1 + 12,
                fc == u16_be(s, q1),
                subfile_header_ok(s, old(reader).pos(), SubfileType::Chr0),
                q1 <= u64::MAX,
                chr0_header_ok(s, q1),
                can_read(s, g0, index_group_size(s, g0)),
                n == u32_be(s, g0 + 4) + 1,
                bones_group.entries@ == entries_at(s, g0 + 8, n as nat),
                bones@.len() == i - 1,
                forall|k: int|
                    0 <= k < bones@.len() ==> chr0_bone_ok(
                        s,
                        g,
                        #[trigger] bones_group.entries@[k + 1],
                        fc,
                    ) && chr0_bone_is(s, g, bones_group.entries@[k + 1], fc, bones@[k]),
            decreases n - i,
        {
            let entry = &bones_group.entries[i];
            proof {
                assert(bones_group.entries@[i as int] == entry_at(s, g0 + 8 + 16 * i));
                assert forall|j: int| 1 <= j < i implies chr0_bone_ok(s, g, #[trigger] entry_at(s, g0 + 8 + 16 * j), fc) by {
                    assert(bones_group.entries@[j] == entry_at(s, g0 + 8 + 16 * j));
                    assert(chr0_bone_ok(s, g, bones_group.entries@[(j - 1) + 1], fc));
                }
            }
            let name = match bones_group.get_entry_name(reader, entry) {
                Ok(v) => v,
                Err(e) => {
                    assert(!chr0_bone_ok(s, g, entry_at(s, g0 + 8 + 16 * i), fc));
                    assert(chr0_bone_error(s, g, entry_at(s, g0 + 8 + 16 * i), fc, e));
                    return Err(e);
                },
            };
            let data_start = match bones_group.checked_entry_data_start(entry) {
                Ok(v) => v,
                Err(e) => {
                    assert(!chr0_bone_ok(s, g, entry_at(s, g0 + 8 + 16 * i), fc));
                    assert(chr0_bone_error(s, g, entry_at(s, g0 + 8 + 16 * i), fc, e));
                    return Err(e);
                },
            };
            reader.set_position(data_start as u64);
            let bone = match AnimatedBone::deserialize(reader, data_start, fc, name) {
                Ok(b) => b,
                Err(e) => {
                    assert(!chr0_bone_ok(s, g, entry_at(s, g0 + 8 + 16 * i), fc));
                    assert(chr0_bone_error(s, g, entry_at(s, g0 + 8 + 16 * i), fc, e));
                    return Err(e);
                },
            };
            bones.push(bone);
            i = i + 1;
        }
        Ok(Chr0Subfile { subfile_header, chr0_header, bones, bones_group })
    }
}

} // verus!
