//! Bone records of MDL0 models: their flags and billboard settings.
use vstd::prelude::*;

use crate::error::{corrupted, reason_with_value, EditorError, EditorResult};
use crate::format::encoding::Deserialize;
use crate::shared::util::{can_read, i32_be, u32_be, u32s_at, RefCursor};

verus! {

pub const IS_BILLBOARD_CHILD_MASK: u32 = 0x00000400;
pub const IS_DISPLAY_MATRIX_MASK: u32 = 0x00000200;
pub const IS_VISIBLE_MASK: u32 = 0x00000100;
pub const DISABLE_CLASSIC_SCALE_MASK: u32 = 0x00000080;
pub const APPLY_CHILD_SCALE_COMPENSATE_MASK: u32 = 0x00000040;
pub const APPLY_SCALE_COMPENSATE_MASK: u32 = 0x00000020;
pub const SCALE_UNIFORM_MASK: u32 = 0x00000010;
pub const SCALE_ISOTROPIC_MASK: u32 = 0x00000008;
pub const ROTATION_ISOTROPIC_MASK: u32 = 0x00000004;
pub const TRANSLATION_ISOTROPIC_MASK: u32 = 0x00000002;
pub const USE_IDENTITY_MASK: u32 = 0x00000001;

/// The flags of a bone, one bit each.
#[derive(Debug, Copy, Clone, PartialEq, Eq)]
pub struct BoneFlags {
    pub is_billboard_child: bool,
    pub is_display_matrix: bool,
    pub is_visible: bool,
    pub disable_classic_scale: bool,
    pub apply_child_scale_compensate: bool,
    pub apply_scale_compensate: bool,
    pub scale_uniform: bool,
    pub scale_isotropic: bool,
    pub rotation_isotropic: bool,
    pub translation_isotropic: bool,
    pub use_identity: bool,
}

/// The flags set in the word `w`.
pub open spec fn bone_flags_of(w: u32) -> BoneFlags {
    BoneFlags {
        is_billboard_child: w & IS_BILLBOARD_CHILD_MASK == IS_BILLBOARD_CHILD_MASK,
        is_display_matrix: w & IS_DISPLAY_MATRIX_MASK == IS_DISPLAY_MATRIX_MASK,
        is_visible: w & IS_VISIBLE_MASK == IS_VISIBLE_MASK,
        disable_classic_scale: w & DISABLE_CLASSIC_SCALE_MASK == DISABLE_CLASSIC_SCALE_MASK,
        apply_child_scale_compensate: w & APPLY_CHILD_SCALE_COMPENSATE_MASK == APPLY_CHILD_SCALE_COMPENSATE_MASK,
        apply_scale_compensate: w & APPLY_SCALE_COMPENSATE_MASK == APPLY_SCALE_COMPENSATE_MASK,
        scale_uniform: w & SCALE_UNIFORM_MASK == SCALE_UNIFORM_MASK,
        scale_isotropic: w & SCALE_ISOTROPIC_MASK == SCALE_ISOTROPIC_MASK,
        rotation_isotropic: w & ROTATION_ISOTROPIC_MASK == ROTATION_ISOTROPIC_MASK,
        translation_isotropic: w & TRANSLATION_ISOTROPIC_MASK == TRANSLATION_ISOTROPIC_MASK,
        use_identity: w & USE_IDENTITY_MASK == USE_IDENTITY_MASK,
    }
}

/// Where each field of the value lies: the bytes (or bits) it is read from.
pub proof fn lemma_bone_flags_layout(w: u32)
    ensures
        bone_flags_of(w).is_billboard_child == (w & 0x00000400 == 0x00000400),
        bone_flags_of(w).is_display_matrix == (w & 0x00000200 == 0x00000200),
        bone_flags_of(w).is_visible == (w & 0x00000100 == 0x00000100),
        bone_flags_of(w).disable_classic_scale == (w & 0x00000080 == 0x00000080),
        bone_flags_of(w).apply_child_scale_compensate == (w & 0x00000040 == 0x00000040),
        bone_flags_of(w).apply_scale_compensate == (w & 0x00000020 == 0x00000020),
        bone_flags_of(w).scale_uniform == (w & 0x00000010 == 0x00000010),
        bone_flags_of(w).scale_isotropic == (w & 0x00000008 == 0x00000008),
        bone_flags_of(w).rotation_isotropic == (w & 0x00000004 == 0x00000004),
        bone_flags_of(w).translation_isotropic == (w & 0x00000002 == 0x00000002),
        bone_flags_of(w).use_identity == (w & 0x00000001 == 0x00000001),
{
}

impl BoneFlags {
    /// The flags set in the word `word`.
    pub fn from_word(word: u32) -> (r: Self)
        ensures
            r == bone_flags_of(word),
    {
        BoneFlags {
            is_billboard_child: word & IS_BILLBOARD_CHILD_MASK == IS_BILLBOARD_CHILD_MASK,
            is_display_matrix: word & IS_DISPLAY_MATRIX_MASK == IS_DISPLAY_MATRIX_MASK,
            is_visible: word & IS_VISIBLE_MASK == IS_VISIBLE_MASK,
            disable_classic_scale: word & DISABLE_CLASSIC_SCALE_MASK == DISABLE_CLASSIC_SCALE_MASK,
            apply_child_scale_compensate: word & APPLY_CHILD_SCALE_COMPENSATE_MASK
                == APPLY_CHILD_SCALE_COMPENSATE_MASK,
            apply_scale_compensate: word & APPLY_SCALE_COMPENSATE_MASK == APPLY_SCALE_COMPENSATE_MASK,
            scale_uniform: word & SCALE_UNIFORM_MASK == SCALE_UNIFORM_MASK,
            scale_isotropic: word & SCALE_ISOTROPIC_MASK == SCALE_ISOTROPIC_MASK,
            rotation_isotropic: word & ROTATION_ISOTROPIC_MASK == ROTATION_ISOTROPIC_MASK,
            translation_isotropic: word & TRANSLATION_ISOTROPIC_MASK == TRANSLATION_ISOTROPIC_MASK,
            use_identity: word & USE_IDENTITY_MASK == USE_IDENTITY_MASK,
        }
    }
}

impl Deserialize for BoneFlags {
    fn deserialize(reader: &mut RefCursor) -> (r: EditorResult<Self>)
        ensures
            final(reader).bytes() == old(reader).bytes(),
            ({
                let s = old(reader).bytes();
                let p = old(reader).pos();
                match r {
                    Ok(f) => can_read(s, p, 4) && f == bone_flags_of(u32_be(s, p)) && final(reader).pos() == p + 4,
                    Err(e) => !can_read(s, p, 4) && e is IoError,
                }
            }),
    {
        let word = reader.read_u32()?;
        Ok(BoneFlags::from_word(word))
    }
}

/// How a bone turns towards the camera.
#[derive(Debug, Copy, Clone, PartialEq, Eq, PartialOrd, Ord)]
pub enum BillboardSetting {
    /// No influence (`None` in the file format's terms).
    Off,
    /// Influenced by rotation of parent node. Z-axis is parallel to camera lens axis.
    InfluencedParallelZ,
    /// Influenced by rotation of parent node. Z-axis points toward camera direction.
    InfluencedDirectZ,
    /// Not influenced by rotation of parent node, restricted by camera's up vector.
    /// Z-axis is parallel to camera lens axis.
    RestrictedParallelZ,
    /// Not influenced by rotation of parent node, restricted by camera's up vector.
    /// Z-axis points toward camera direction.
    RestrictedDirectZ,
    /// Influenced by rotation of parent node and rotates only around Y-axis.
    /// Z-axis is parallel to camera lens axis.
    InfluencedOnlyYParallelZ,
    /// Influenced by rotation of parent node and rotates only around Y-axis.
    /// Z-axis points toward camera direction.
    InfluencedOnlyYDirectZ,
}

/// The billboard setting with code `v` (0 to 6).
pub open spec fn billboard_of(v: u32) -> BillboardSetting {
    if v == 0 {
        BillboardSetting::Off
    } else if v == 1 {
        BillboardSetting::InfluencedParallelZ
    } else if v == 2 {
        BillboardSetting::InfluencedDirectZ
    } else if v == 3 {
        BillboardSetting::RestrictedParallelZ
    } else if v == 4 {
        BillboardSetting::RestrictedDirectZ
    } else if v == 5 {
        BillboardSetting::InfluencedOnlyYParallelZ
    } else {
        BillboardSetting::InfluencedOnlyYDirectZ
    }
}

/// The codes that the file format assigns: each code stated here names the value
/// beside it, and every code not listed gives the value of the last line.
pub proof fn lemma_billboard_codes()
    ensures
        billboard_of(0) == BillboardSetting::Off,
        billboard_of(1) == BillboardSetting::InfluencedParallelZ,
        billboard_of(2) == BillboardSetting::InfluencedDirectZ,
        billboard_of(3) == BillboardSetting::RestrictedParallelZ,
        billboard_of(4) == BillboardSetting::RestrictedDirectZ,
        billboard_of(5) == BillboardSetting::InfluencedOnlyYParallelZ,
        billboard_of(6) == BillboardSetting::InfluencedOnlyYDirectZ,
        forall|v: u32| !(v == 0 || v == 1 || v == 2 || v == 3 || v == 4 || v == 5) ==> #[trigger] billboard_of(v) == BillboardSetting::InfluencedOnlyYDirectZ,
{
}

impl BillboardSetting {
    /// Number of billboard settings.
    pub fn len() -> (r: usize)
        ensures
            r == 7,
    {
        7
    }

    /// The setting with code `value`, which must be below [`len`](Self::len).
    pub fn try_from(value: u32) -> (r: EditorResult<Self>)
        ensures
            match r {
                Ok(b) => value <= 6 && b == billboard_of(value),
                Err(e) => value > 6 && e is Corrupted,
            },
    {
        match value {
            0 => Ok(BillboardSetting::Off),
            1 => Ok(BillboardSetting::InfluencedParallelZ),
            2 => Ok(BillboardSetting::InfluencedDirectZ),
            3 => Ok(BillboardSetting::RestrictedParallelZ),
            4 => Ok(BillboardSetting::RestrictedDirectZ),
            5 => Ok(BillboardSetting::InfluencedOnlyYParallelZ),
            6 => Ok(BillboardSetting::InfluencedOnlyYDirectZ),
            v => Err(
                corrupted(
                    reason_with_value("invalid bone flag billboard setting: ", v as u64, " (expected 0-6)"),
                    None,
                ),
            ),
        }
    }
}

impl Deserialize for BillboardSetting {
    fn deserialize(reader: &mut RefCursor) -> (r: EditorResult<Self>)
        ensures
            final(reader).bytes() == old(reader).bytes(),
            ({
                let s = old(reader).bytes();
                let p = old(reader).pos();
                match r {
                    Ok(b) => can_read(s, p, 4) && u32_be(s, p) <= 6 && b == billboard_of(u32_be(s, p))
                        && final(reader).pos() == p + 4,
                    Err(e) => if can_read(s, p, 4) {
                        u32_be(s, p) > 6 && e is Corrupted
                    } else {
                        e is IoError
                    },
                }
            }),
    {
        let word = reader.read_u32()?;
        Self::try_from(word)
    }
}

/// Reads twelve big-endian words.
pub fn read_u32x12(reader: &mut RefCursor) -> (r: EditorResult<[u32; 12]>)
    ensures
        final(reader).bytes() == old(reader).bytes(),
        match r {
            Ok(v) => can_read(old(reader).bytes(), old(reader).pos(), 48) && v@ == u32s_at(
                old(reader).bytes(),
                old(reader).pos(),
                12,
            ) && final(reader).pos() == old(reader).pos() + 48,
            Err(e) => !can_read(old(reader).bytes(), old(reader).pos(), 48) && e is IoError,
        },
{
    let v = reader.read_u32_vec(12)?;
    let a = [v[0], v[1], v[2], v[3], v[4], v[5], v[6], v[7], v[8], v[9], v[10], v[11]];
    assert(a@ =~= v@);
    Ok(a)
}

/// Size of a bone record as this crate reads it.
pub const BONE_RECORD_SIZE: u64 = 208;

/// Where a bone record can be read at `p` of `s`.
pub open spec fn bone_record_ok(s: Seq<u8>, p: int) -> bool {
    can_read(s, p, 208) && u32_be(s, p + 24) <= 6 && p + u32_be(s, p) <= u64::MAX
}

/// Whether `e` is the error that reading a bone record at `p` of `s` gives where it
/// cannot be read: an unknown billboard setting, the end of the input, or a corruption
/// error for an end position past the largest one.
pub open spec fn bone_record_error(s: Seq<u8>, p: int, e: EditorError) -> bool {
    if !can_read(s, p, 28) {
        e is IoError
    } else if u32_be(s, p + 24) > 6 {
        e is Corrupted
    } else if !can_read(s, p, 208) {
        e is IoError
    } else {
        e is Corrupted
    }
}

/// The fields of a bone record, as a bone of the `Bones` section.
pub struct Bones {
    pub mdl0_offset: i32,
    pub name_offset: i32,
    pub index: u32,
    pub id: u32,
    pub flags: BoneFlags,
    pub billboard_setting: BillboardSetting,
    pub billboard_transform: u32,
    /// Bits of the single-precision components of each vector and matrix below.
    pub scaling_vector: [u32; 3],
    pub rotation_vector: [u32; 3],
    pub translation_vector: [u32; 3],
    pub bounding_volume_min: [u32; 3],
    pub bounding_volume_max: [u32; 3],
    pub parent_offset: i32,
    pub first_child_offset: i32,
    pub next_sibling_offset: i32,
    pub previous_sibling_offset: i32,
    pub user_data_offset: i32,
    pub transform_matrix: [u32; 12],
    pub inverse_matrix: [u32; 12],
}

/// Whether `b` holds the fields of the bone record at `p` of `s`.
pub open spec fn bones_is(s: Seq<u8>, p: int, b: Bones) -> bool {
    &&& b.mdl0_offset == i32_be(s, p + 4)
    &&& b.name_offset == i32_be(s, p + 8)
    &&& b.index == u32_be(s, p + 12)
    &&& b.id == u32_be(s, p + 16)
    &&& b.flags == bone_flags_of(u32_be(s, p + 20))
    &&& b.billboard_setting == billboard_of(u32_be(s, p + 24))
    &&& b.billboard_transform == u32_be(s, p + 28)
    &&& b.scaling_vector@ == u32s_at(s, p + 32, 3)
    &&& b.rotation_vector@ == u32s_at(s, p + 44, 3)
    &&& b.translation_vector@ == u32s_at(s, p + 56, 3)
    &&& b.bounding_volume_min@ == u32s_at(s, p + 68, 3)
    &&& b.bounding_volume_max@ == u32s_at(s, p + 80, 3)
    &&& b.parent_offset == i32_be(s, p + 92)
    &&& b.first_child_offset == i32_be(s, p + 96)
    &&& b.next_sibling_offset == i32_be(s, p + 100)
    &&& b.previous_sibling_offset == i32_be(s, p + 104)
    &&& b.user_data_offset == i32_be(s, p + 108)
    &&& b.transform_matrix@ == u32s_at(s, p + 112, 12)
    &&& b.inverse_matrix@ == u32s_at(s, p + 160, 12)
}

/// Where each field of the value lies: the bytes it is read from.
pub proof fn lemma_bones_layout(s: Seq<u8>, p: int, b: Bones)
    requires
        bones_is(s, p, b),
    ensures
        (b.mdl0_offset == i32_be(s, p + 4)),
        (b.name_offset == i32_be(s, p + 8)),
        (b.index == u32_be(s, p + 12)),
        (b.id == u32_be(s, p + 16)),
        (b.flags == bone_flags_of(u32_be(s, p + 20))),
        (b.billboard_setting == billboard_of(u32_be(s, p + 24))),
        (b.billboard_transform == u32_be(s, p + 28)),
        (b.scaling_vector@ == u32s_at(s, p + 32, 3)),
        (b.rotation_vector@ == u32s_at(s, p + 44, 3)),
        (b.translation_vector@ == u32s_at(s, p + 56, 3)),
        (b.bounding_volume_min@ == u32s_at(s, p + 68, 3)),
        (b.bounding_volume_max@ == u32s_at(s, p + 80, 3)),
        (b.parent_offset == i32_be(s, p + 92)),
        (b.first_child_offset == i32_be(s, p + 96)),
        (b.next_sibling_offset == i32_be(s, p + 100)),
        (b.previous_sibling_offset == i32_be(s, p + 104)),
        (b.user_data_offset == i32_be(s, p + 108)),
        (b.transform_matrix@ == u32s_at(s, p + 112, 12)),
        (b.inverse_matrix@ == u32s_at(s, p + 160, 12)),
{
}

impl Bones {
    /// Reads the bone record at the position of `reader`, then moves to its end as
    /// given by its length field.
    pub fn deserialize_section(reader: &mut RefCursor, _header_start: u32) -> (r: EditorResult<Self>)
        ensures
            final(reader).bytes() == old(reader).bytes(),
            ({
                let s = old(reader).bytes();
                let p = old(reader).pos();
                match r {
                    Ok(b) => bone_record_ok(s, p) && bones_is(s, p, b) && final(reader).pos() == p + u32_be(s, p),
                    Err(e) => !bone_record_ok(s, p) && bone_record_error(s, p, e),
                }
            }),
    {
        let start = reader.position();
        let length = reader.read_u32()?;
        let mdl0_offset = reader.read_i32()?;
        let name_offset = reader.read_i32()?;
        let index = reader.read_u32()?;
        let id = reader.read_u32()?;
        let flags = BoneFlags::deserialize(reader)?;
        let billboard_setting = BillboardSetting::deserialize(reader)?;
        let billboard_transform = reader.read_u32()?;
        let scaling_vector = crate::format::mdl0::vertices::read_u32x3(reader)?;
        let rotation_vector = crate::format::mdl0::vertices::read_u32x3(reader)?;
        let translation_vector = crate::format::mdl0::vertices::read_u32x3(reader)?;
        let bounding_volume_min = crate::format::mdl0::vertices::read_u32x3(reader)?;
        let bounding_volume_max = crate::format::mdl0::vertices::read_u32x3(reader)?;
        let parent_offset = reader.read_i32()?;
        let first_child_offset = reader.read_i32()?;
        let next_sibling_offset = reader.read_i32()?;
        let previous_sibling_offset = reader.read_i32()?;
        let user_data_offset = reader.read_i32()?;
        let transform_matrix = read_u32x12(reader)?;
        let inverse_matrix = read_u32x12(reader)?;
        match start.checked_add(length as u64) {
            Some(end) => reader.set_position(end),
            None => {
                return Err(corrupted("bone length overflows".to_owned(), Some(start)));
            },
        }
        Ok(Bones {
            mdl0_offset,
            name_offset,
            index,
            id,
            flags,
            billboard_setting,
            billboard_transform,
            scaling_vector,
            rotation_vector,
            translation_vector,
            bounding_volume_min,
            bounding_volume_max,
            parent_offset,
            first_child_offset,
            next_sibling_offset,
            previous_sibling_offset,
            user_data_offset,
            transform_matrix,
            inverse_matrix,
        })
    }
}

} // verus!
