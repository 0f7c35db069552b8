//! MDL0 subfiles: 3D models.
pub mod bone;
pub mod bones;
pub mod bytecode;
pub mod colors;
pub mod definitions;
pub mod gx;
pub mod materials;
pub mod normals;
pub mod polygons;
pub mod section;
pub mod tevs;
pub mod tex_links;
pub mod textures;
pub mod util;
pub mod uvs;
pub mod vertices;

use std::collections::HashMap;
use vstd::prelude::*;

use crate::error::{corrupted, reason_with_value, unsupported, EditorError, EditorResult};
use crate::format::brres::{
    get_section_count, i32s_at, node_is, subfile_header_error, subfile_header_ok, IndexGroup, SubfileHeader, SubfileType, index_group_size, subfile_header_size,
};
use crate::format::encoding::Deserialize;
use crate::node::defer::{DeferPayload, Deferred, DeferredParse};
use crate::node::node::{VirtualNode, VirtualNodeBody, VirtualNodeKind};
use crate::format::mdl0::bone::{skeleton_built, skeleton_entries_ok, skeleton_error, skeleton_has_root, skeleton_parents_ok};
use crate::format::mdl0::section::{entries_result, EntryKind};
use crate::node::refs::{VirtualNodeId, VirtualNodeMap};
use crate::shared::util::{can_read, i32_be, u32_be, u32s_at, RefCursor};

verus! {

broadcast use vstd::std_specs::hash::group_hash_axioms;

/// Magic of an MDL0 subfile ("MDL0").
pub const MDL0_MAGIC: [u8; 4] = [0x4d, 0x44, 0x4c, 0x30];

/// How the bones of a model are scaled.
#[derive(Debug, Copy, Clone, PartialEq, Eq, Structural, PartialOrd, Ord)]
pub enum ScalingMode {
    Standard,
    Softimage,
    Maya,
}

/// The variant with code `v` (0 to 2).
pub open spec fn scaling_mode_of(v: u32) -> ScalingMode {
    if v == 0 {
        ScalingMode::Standard
    } else if v == 1 {
        ScalingMode::Softimage
    } else {
        ScalingMode::Maya
    }
}

/// The codes that the file format assigns: each code stated here names the value
/// beside it, and every code not listed gives the value of the last line.
pub proof fn lemma_scaling_mode_codes()
    ensures
        scaling_mode_of(0) == ScalingMode::Standard,
        scaling_mode_of(1) == ScalingMode::Softimage,
        scaling_mode_of(2) == ScalingMode::Maya,
        forall|v: u32| !(v == 0 || v == 1) ==> #[trigger] scaling_mode_of(v) == ScalingMode::Maya,
{
}

impl ScalingMode {
    /// The variant with code `value`, which must be below 3.
    pub fn try_from(value: u32) -> (r: EditorResult<Self>)
        ensures
            match r {
                Ok(x) => value < 3 && x == scaling_mode_of(value as u32),
                Err(e) => value >= 3 && e is Corrupted,
            },
    {
        match value {
            0 => Ok(ScalingMode::Standard),
            1 => Ok(ScalingMode::Softimage),
            2 => Ok(ScalingMode::Maya),
            _ => Err(corrupted(reason_with_value("invalid scaling mode: ", value as u64, " (expected 0-2)"), None)),
        }
    }
}

impl Deserialize for ScalingMode {
    fn deserialize(reader: &mut RefCursor) -> (r: EditorResult<Self>)
        ensures
            final(reader).bytes() == old(reader).bytes(),
            ({
                let s = old(reader).bytes();
                let p = old(reader).pos();
                match r {
                    Ok(x) => can_read(s, p, 4) && u32_be(s, p) < 3 && x == scaling_mode_of(u32_be(s, p) as u32) && final(reader).pos() == p + 4,
                    Err(e) => if can_read(s, p, 4) {
                        u32_be(s, p) >= 3 && e is Corrupted
                    } else {
                        e is IoError
                    },
                }
            }),
    {
        let v = reader.read_u32()?;
        Self::try_from(v)
    }
}

/// The convention of texture matrices.
#[derive(Debug, Copy, Clone, PartialEq, Eq, Structural, PartialOrd, Ord)]
pub enum TextureMatrixMode {
    Maya,
    Xsi,
    ThreeDsMax,
}

/// The variant with code `v` (0 to 2).
pub open spec fn texture_matrix_mode_of(v: u32) -> TextureMatrixMode {
    if v == 0 {
        TextureMatrixMode::Maya
    } else if v == 1 {
        TextureMatrixMode::Xsi
    } else {
        TextureMatrixMode::ThreeDsMax
    }
}

/// The codes that the file format assigns: each code stated here names the value
/// beside it, and every code not listed gives the value of the last line.
pub proof fn lemma_texture_matrix_mode_codes()
    ensures
        texture_matrix_mode_of(0) == TextureMatrixMode::Maya,
        texture_matrix_mode_of(1) == TextureMatrixMode::Xsi,
        texture_matrix_mode_of(2) == TextureMatrixMode::ThreeDsMax,
        forall|v: u32| !(v == 0 || v == 1) ==> #[trigger] texture_matrix_mode_of(v) == TextureMatrixMode::ThreeDsMax,
{
}

impl TextureMatrixMode {
    /// The variant with code `value`, which must be below 3.
    pub fn try_from(value: u32) -> (r: EditorResult<Self>)
        ensures
            match r {
                Ok(x) => value < 3 && x == texture_matrix_mode_of(value as u32),
                Err(e) => value >= 3 && e is Corrupted,
            },
    {
        match value {
            0 => Ok(TextureMatrixMode::Maya),
            1 => Ok(TextureMatrixMode::Xsi),
            2 => Ok(TextureMatrixMode::ThreeDsMax),
            _ => Err(corrupted(reason_with_value("invalid texture matrix mode: ", value as u64, " (expected 0-2)"), None)),
        }
    }
}

impl Deserialize for TextureMatrixMode {
    fn deserialize(reader: &mut RefCursor) -> (r: EditorResult<Self>)
        ensures
            final(reader).bytes() == old(reader).bytes(),
            ({
                let s = old(reader).bytes();
                let p = old(reader).pos();
                match r {
                    Ok(x) => can_read(s, p, 4) && u32_be(s, p) < 3 && x == texture_matrix_mode_of(u32_be(s, p) as u32) && final(reader).pos() == p + 4,
                    Err(e) => if can_read(s, p, 4) {
                        u32_be(s, p) >= 3 && e is Corrupted
                    } else {
                        e is IoError
                    },
                }
            }),
    {
        let v = reader.read_u32()?;
        Self::try_from(v)
    }
}

/// The sections of an MDL0 model, in the order of their offsets in the subfile header.
#[derive(Debug, Copy, Clone, PartialEq, Eq, Structural, PartialOrd, Ord)]
pub enum SectionType {
    DrawLists,
    Bones,
    Vertices,
    Normals,
    Colors,
    UvCoordinates,
    FurVectors,
    FurLayers,
    Materials,
    Tevs,
    Polygons,
    TextureLinks,
    PaletteLinks,
    UserData,
}

/// The section type with index `v` (0 to 13).
pub open spec fn section_type_of(v: u32) -> SectionType {
    if v == 0 {
        SectionType::DrawLists
    } else if v == 1 {
        SectionType::Bones
    } else if v == 2 {
        SectionType::Vertices
    } else if v == 3 {
        SectionType::Normals
    } else if v == 4 {
        SectionType::Colors
    } else if v == 5 {
        SectionType::UvCoordinates
    } else if v == 6 {
        SectionType::FurVectors
    } else if v == 7 {
        SectionType::FurLayers
    } else if v == 8 {
        SectionType::Materials
    } else if v == 9 {
        SectionType::Tevs
    } else if v == 10 {
        SectionType::Polygons
    } else if v == 11 {
        SectionType::TextureLinks
    } else if v == 12 {
        SectionType::PaletteLinks
    } else {
        SectionType::UserData
    }
}

/// The codes that the file format assigns: each code stated here names the value
/// beside it, and every code not listed gives the value of the last line.
pub proof fn lemma_section_type_codes()
    ensures
        section_type_of(0) == SectionType::DrawLists,
        section_type_of(1) == SectionType::Bones,
        section_type_of(2) == SectionType::Vertices,
        section_type_of(3) == SectionType::Normals,
        section_type_of(4) == SectionType::Colors,
        section_type_of(5) == SectionType::UvCoordinates,
        section_type_of(6) == SectionType::FurVectors,
        section_type_of(7) == SectionType::FurLayers,
        section_type_of(8) == SectionType::Materials,
        section_type_of(9) == SectionType::Tevs,
        section_type_of(10) == SectionType::Polygons,
        section_type_of(11) == SectionType::TextureLinks,
        section_type_of(12) == SectionType::PaletteLinks,
        section_type_of(13) == SectionType::UserData,
        forall|v: u32| !(v == 0 || v == 1 || v == 2 || v == 3 || v == 4 || v == 5 || v == 6 || v == 7 || v == 8 || v == 9 || v == 10 || v == 11 || v == 12) ==> #[trigger] section_type_of(v) == SectionType::UserData,
{
}

impl SectionType {
    /// The section type with index `value`, which must be below 14.
    pub fn try_from(value: u32) -> (r: EditorResult<Self>)
        ensures
            match r {
                Ok(t) => value < 14 && t == section_type_of(value),
                Err(e) => value >= 14 && e is Corrupted,
            },
    {
        match value {
            0 => Ok(SectionType::DrawLists),
            1 => Ok(SectionType::Bones),
            2 => Ok(SectionType::Vertices),
            3 => Ok(SectionType::Normals),
            4 => Ok(SectionType::Colors),
            5 => Ok(SectionType::UvCoordinates),
            6 => Ok(SectionType::FurVectors),
            7 => Ok(SectionType::FurLayers),
            8 => Ok(SectionType::Materials),
            9 => Ok(SectionType::Tevs),
            10 => Ok(SectionType::Polygons),
            11 => Ok(SectionType::TextureLinks),
            12 => Ok(SectionType::PaletteLinks),
            13 => Ok(SectionType::UserData),
            v => Err(corrupted(reason_with_value("invalid MDL0 section ID: ", v as u64, " (expected 0-13)"), None)),
        }
    }
}

/// The label of the section node with index `i` (0 to 13).
pub open spec fn section_label(i: int) -> Seq<char> {
    if i == 0 {
        "Bytecode"@
    } else if i == 1 {
        "Bones"@
    } else if i == 2 {
        "Vertices"@
    } else if i == 3 {
        "Normals"@
    } else if i == 4 {
        "Colors"@
    } else if i == 5 {
        "UVs"@
    } else if i == 6 {
        "Fur vectors"@
    } else if i == 7 {
        "Fur layers"@
    } else if i == 8 {
        "Materials"@
    } else if i == 9 {
        "TEVs"@
    } else if i == 10 {
        "Polygons"@
    } else if i == 11 {
        "Texture links"@
    } else if i == 12 {
        "Palette links"@
    } else {
        "User data"@
    }
}

/// The label that names the sections of type `t`.
pub open spec fn section_type_label(t: SectionType) -> Seq<char> {
    match t {
        SectionType::DrawLists => "Bytecode"@,
        SectionType::Bones => "Bones"@,
        SectionType::Vertices => "Vertices"@,
        SectionType::Normals => "Normals"@,
        SectionType::Colors => "Colors"@,
        SectionType::UvCoordinates => "UVs"@,
        SectionType::FurVectors => "Fur vectors"@,
        SectionType::FurLayers => "Fur layers"@,
        SectionType::Materials => "Materials"@,
        SectionType::Tevs => "TEVs"@,
        SectionType::Polygons => "Polygons"@,
        SectionType::TextureLinks => "Texture links"@,
        SectionType::PaletteLinks => "Palette links"@,
        SectionType::UserData => "User data"@,
    }
}

/// The node of the section at index `i` of the section table is labelled with the name
/// of the type that index `i` is read as: the labels and the types of the sections
/// follow the same order of the table.
pub proof fn lemma_section_label_names_its_type(i: u32)
    requires
        i < 14,
    ensures
        section_label(i as int) == section_type_label(section_type_of(i)),
{
}

/// The label of the section node with index `i` (0 to 13).
pub fn mdl0_section_name(i: usize) -> (r: String)
    requires
        i < 14,
    ensures
        r@ == section_label(i as int),
{
    let name = if i == 0 {
        "Bytecode"
    } else if i == 1 {
        "Bones"
    } else if i == 2 {
        "Vertices"
    } else if i == 3 {
        "Normals"
    } else if i == 4 {
        "Colors"
    } else if i == 5 {
        "UVs"
    } else if i == 6 {
        "Fur vectors"
    } else if i == 7 {
        "Fur layers"
    } else if i == 8 {
        "Materials"
    } else if i == 9 {
        "TEVs"
    } else if i == 10 {
        "Polygons"
    } else if i == 11 {
        "Texture links"
    } else if i == 12 {
        "Palette links"
    } else {
        "User data"
    };
    name.to_string()
}

/// A record of a section that is read at the position of a reader; offsets in it count
/// from `header_start`, the start of the MDL0 subfile.
pub trait SectionDeserialize: Sized {
    fn deserialize_section(reader: &mut RefCursor, header_start: u32) -> EditorResult<Self>;
}

/// The header of an MDL0 model.
pub struct Mdl0Header {
    pub file_header_offset: i32,
    pub scaling_mode: ScalingMode,
    pub texture_matrix_mode: TextureMatrixMode,
    pub vertex_count: i32,
    pub face_count: i32,
    pub matrix_count: u32,
    pub require_normalized_matrix_array: bool,
    pub require_texture_matrix_array: bool,
    pub enable_bounding_volume_data: bool,
    pub matrix_table_offset: i32,
    /// Bits of the single-precision coordinates of the minimum of the bounding box.
    pub bounding_volume_minimum: [u32; 3],
    /// Bits of the single-precision coordinates of the maximum of the bounding box.
    pub bounding_volume_maximum: [u32; 3],
}

/// Where an MDL0 header can be read at `p` of `s`.
pub open spec fn mdl0_header_ok(s: Seq<u8>, p: int) -> bool {
    &&& can_read(s, p, 64)
    &&& u32_be(s, p + 8) < 3
    &&& u32_be(s, p + 12) < 3
    &&& p + u32_be(s, p) <= u64::MAX
}

/// Whether `e` is the error that reading an MDL0 header at `p` of `s` gives where it
/// cannot be read: an unknown scaling or texture matrix mode, the end of the input, or
/// a corruption error for an end position past the largest one.
pub open spec fn mdl0_header_error(s: Seq<u8>, p: int, e: EditorError) -> bool {
    if !can_read(s, p, 12) {
        e is IoError
    } else if u32_be(s, p + 8) >= 3 {
        e is Corrupted
    } else if !can_read(s, p, 16) {
        e is IoError
    } else if u32_be(s, p + 12) >= 3 {
        e is Corrupted
    } else if !can_read(s, p, 64) {
        e is IoError
    } else {
        e is Corrupted
    }
}

/// Whether `h` is the MDL0 header stored at `p` of `s`.
pub open spec fn mdl0_header_is(s: Seq<u8>, p: int, h: Mdl0Header) -> bool {
    &&& h.file_header_offset == i32_be(s, p + 4)
    &&& h.scaling_mode == scaling_mode_of(u32_be(s, p + 8))
    &&& h.texture_matrix_mode == texture_matrix_mode_of(u32_be(s, p + 12))
    &&& h.vertex_count == i32_be(s, p + 16)
    &&& h.face_count == i32_be(s, p + 20)
    &&& h.matrix_count == u32_be(s, p + 28)
    &&& h.require_normalized_matrix_array == (s[p + 32] != 0)
    &&& h.require_texture_matrix_array == (s[p + 33] != 0)
    &&& h.enable_bounding_volume_data == (s[p + 34] != 0)
    &&& h.matrix_table_offset == i32_be(s, p + 36)
    &&& h.bounding_volume_minimum@ == u32s_at(s, p + 40, 3)
    &&& h.bounding_volume_maximum@ == u32s_at(s, p + 52, 3)
}

/// Where each field of the value lies: the bytes it is read from.
pub proof fn lemma_mdl0_header_layout(s: Seq<u8>, p: int, h: Mdl0Header)
    requires
        mdl0_header_is(s, p, h),
    ensures
        (h.file_header_offset == i32_be(s, p + 4)),
        (h.scaling_mode == scaling_mode_of(u32_be(s, p + 8))),
        (h.texture_matrix_mode == texture_matrix_mode_of(u32_be(s, p + 12))),
        (h.vertex_count == i32_be(s, p + 16)),
        (h.face_count == i32_be(s, p + 20)),
        (h.matrix_count == u32_be(s, p + 28)),
        (h.require_normalized_matrix_array == (s[p + 32] != 0)),
        (h.require_texture_matrix_array == (s[p + 33] != 0)),
        (h.enable_bounding_volume_data == (s[p + 34] != 0)),
        (h.matrix_table_offset == i32_be(s, p + 36)),
        (h.bounding_volume_minimum@ == u32s_at(s, p + 40, 3)),
        (h.bounding_volume_maximum@ == u32s_at(s, p + 52, 3)),
{
}

impl Deserialize for Mdl0Header {
    fn deserialize(reader: &mut RefCursor) -> (r: EditorResult<Self>)
        ensures
            final(reader).bytes() == old(reader).bytes(),
            ({
                let s = old(reader).bytes();
                let p = old(reader).pos();
                match r {
                    Ok(h) => mdl0_header_ok(s, p) && mdl0_header_is(s, p, h) && final(reader).pos() == p + u32_be(s, p),
                    Err(e) => !mdl0_header_ok(s, p) && mdl0_header_error(s, p, e),
                }
            }),
    {
        let start = reader.position();
        let header_length = reader.read_u32()?;
        let file_header_offset = reader.read_i32()?;
        let scaling_mode = ScalingMode::deserialize(reader)?;
        let texture_matrix_mode = TextureMatrixMode::deserialize(reader)?;
        let vertex_count = reader.read_i32()?;
        let face_count = reader.read_i32()?;
        let _unused1 = reader.read_i32()?;
        let matrix_count = reader.read_u32()?;
        let require_normalized_matrix_array = reader.read_u8()? != 0;
        let require_texture_matrix_array = reader.read_u8()? != 0;
        let enable_bounding_volume_data = reader.read_u8()? != 0;
        let _unknown1 = reader.read_u8()?;
        let matrix_table_offset = reader.read_i32()?;
        let bounding_volume_minimum = crate::format::mdl0::vertices::read_u32x3(reader)?;
        let bounding_volume_maximum = crate::format::mdl0::vertices::read_u32x3(reader)?;
        match start.checked_add(header_length as u64) {
            Some(end) => reader.set_position(end),
            None => {
                return Err(corrupted("MDL0 header length overflows".to_owned(), Some(start)));
            },
        }
        Ok(Mdl0Header {
            file_header_offset,
            scaling_mode,
            texture_matrix_mode,
            vertex_count,
            face_count,
            matrix_count,
            require_normalized_matrix_array,
            require_texture_matrix_array,
            enable_bounding_volume_data,
            matrix_table_offset,
            bounding_volume_minimum,
            bounding_volume_maximum,
        })
    }
}

/// The word that marks a matrix with several influences in a bone link table.
pub const BLENDED_MARK: u32 = 0xFFFF_FFFF;

/// Whether one of the first `k` words of the table at `p` marks a blended matrix.
pub open spec fn blend_seen(s: Seq<u8>, p: int, k: nat) -> bool
    decreases k,
{
    k > 0 && (blend_seen(s, p, (k - 1) as nat) || u32_be(s, p + 4 * k) == BLENDED_MARK)
}

/// Matrix index to bone index, for the first `k` words of the table at `p`: each word
/// before the first mark drives the matrix of its index.
pub open spec fn link_driven(s: Seq<u8>, p: int, k: nat) -> Map<u32, u32>
    decreases k,
{
    if k == 0 {
        Map::empty()
    } else {
        let prev = link_driven(s, p, (k - 1) as nat);
        let w = u32_be(s, p + 4 * k);
        if w != BLENDED_MARK && !blend_seen(s, p, (k - 1) as nat) {
            prev.insert((k - 1) as u32, w)
        } else {
            prev
        }
    }
}

/// Indices of the marked words among the first `k` of the table at `p`.
pub open spec fn link_blended(s: Seq<u8>, p: int, k: nat) -> Seq<u32>
    decreases k,
{
    if k == 0 {
        Seq::empty()
    } else {
        let prev = link_blended(s, p, (k - 1) as nat);
        if u32_be(s, p + 4 * k) == BLENDED_MARK {
            prev.push((k - 1) as u32)
        } else {
            prev
        }
    }
}

/// Unmarked words after the first mark among the first `k` of the table at `p`: bones
/// that deform no geometry.
pub open spec fn link_unconnected(s: Seq<u8>, p: int, k: nat) -> Seq<u32>
    decreases k,
{
    if k == 0 {
        Seq::empty()
    } else {
        let prev = link_unconnected(s, p, (k - 1) as nat);
        let w = u32_be(s, p + 4 * k);
        if w != BLENDED_MARK && blend_seen(s, p, (k - 1) as nat) {
            prev.push(w)
        } else {
            prev
        }
    }
}

/// Which bones drive which matrices.
pub struct BoneLinkTable {
    /// Maps a matrix index to the single bone index driving it.
    pub driven_matrices: HashMap<u32, u32>,
    /// Indices of matrices that have several bones affecting them.
    pub blended_matrices: Vec<u32>,
    /// Indices of bones that do not deform any geometry.
    pub unconnected_bones: Vec<u32>,
}

/// Number of entries of `t`, counted over its three parts.
pub open spec fn link_table_len(t: &BoneLinkTable) -> nat {
    t.driven_matrices@.len() + t.blended_matrices@.len() + t.unconnected_bones@.len()
}

impl BoneLinkTable {
    /// Number of entries: driven matrices, blended matrices and unconnected bones.
    pub fn len(&self) -> (r: usize)
        requires
            link_table_len(self) <= usize::MAX,
        ensures
            r == link_table_len(self),
    {
        self.driven_matrices.len() + self.blended_matrices.len() + self.unconnected_bones.len()
    }
}

/// Each word of a bone link table goes to exactly one of its three parts, so the
/// parts of the first `k` words hold `k` entries together.
pub proof fn lemma_link_table_len(s: Seq<u8>, p: int, k: nat)
    requires
        k <= u32::MAX,
    ensures
        link_driven(s, p, k).dom().finite(),
        forall|i: u32| #[trigger] link_driven(s, p, k).dom().contains(i) ==> i < k,
        link_driven(s, p, k).len() + link_blended(s, p, k).len() + link_unconnected(s, p, k).len() == k,
    decreases k,
{
    if k > 0 {
        lemma_link_table_len(s, p, (k - 1) as nat);
        let prev = link_driven(s, p, (k - 1) as nat);
        assert(!prev.dom().contains((k - 1) as u32));
    }
}

/// Where a bone link table can be read at `p` of `s`: its count and that many words.
pub open spec fn link_table_ok(s: Seq<u8>, p: int) -> bool {
    can_read(s, p, 4) && can_read(s, p + 4, 4 * u32_be(s, p))
}

impl Deserialize for BoneLinkTable {
    fn deserialize(reader: &mut RefCursor) -> (r: EditorResult<Self>)
        ensures
            final(reader).bytes() == old(reader).bytes(),
            ({
                let s = old(reader).bytes();
                let p = old(reader).pos();
                let n = u32_be(s, p) as nat;
                match r {
                    Ok(t) => link_table_ok(s, p) && t.driven_matrices@ == link_driven(s, p, n)
                        && t.blended_matrices@ == link_blended(s, p, n) && t.unconnected_bones@
                        == link_unconnected(s, p, n) && link_table_len(&t) == n && final(reader).pos() == p
                        + 4 + 4 * n,
                    Err(e) => !link_table_ok(s, p) && e is IoError,
                }
            }),
    {
        let ghost s = reader.bytes();
        let ghost p = reader.pos();
        let entry_count = reader.read_u32()?;
        let mut driven: HashMap<u32, u32> = HashMap::new();
        let mut blended: Vec<u32> = Vec::new();
        let mut unconnected: Vec<u32> = Vec::new();
        let mut blended_appeared = false;
        let mut i: u32 = 0;
        while i < entry_count
            invariant
                reader.bytes() == s,
                s == old(reader).bytes(),
                p == old(reader).pos(),
                can_read(s, p, 4),
                entry_count == u32_be(s, p),
                i <= entry_count,
                can_read(s, p + 4, 4 * i),
                reader.pos() == p + 4 + 4 * i,
                blended_appeared == blend_seen(s, p, i as nat),
                driven@ == link_driven(s, p, i as nat),
                blended@ == link_blended(s, p, i as nat),
                unconnected@ == link_unconnected(s, p, i as nat),
            decreases entry_count - i,
        {
            let word = reader.read_u32()?;
            assert(word == u32_be(s, p + 4 * (i + 1)));
            if word == BLENDED_MARK {
                blended.push(i);
                blended_appeared = true;
            } else if blended_appeared {
                unconnected.push(word);
            } else {
                driven.insert(i, word);
            }
            i = i + 1;
        }
        proof {
            lemma_link_table_len(s, p, entry_count as nat);
        }
        Ok(BoneLinkTable { driven_matrices: driven, blended_matrices: blended, unconnected_bones: unconnected })
    }
}

/// What reading the section of type `ty` of the MDL0 subfile at `header_start` of `s`,
/// `section_offset` bytes after that start, gives from map `before` to map `after`:
/// for sections of records, a node per entry (see [`entries_result`]); for the bones,
/// the skeleton (see [`bone::deserialize_skeleton`]); other sections give an empty body.
pub open spec fn section_result(
    s: Seq<u8>,
    header_start: u32,
    section_offset: i32,
    ty: SectionType,
    parent_id: VirtualNodeId,
    before: &VirtualNodeMap,
    after: &VirtualNodeMap,
    r: EditorResult<VirtualNodeBody>,
) -> bool {
    let q = (header_start as i64 + section_offset as i64) as u64 as int;
    &&& before.extends(after)
    &&& match ty {
        SectionType::DrawLists => entries_result(s, q, 0, parent_id, EntryKind::Bytecode, before, after, r),
        SectionType::Vertices => entries_result(s, q, header_start, parent_id, EntryKind::Vertices, before, after, r),
        SectionType::Normals => entries_result(s, q, header_start, parent_id, EntryKind::Normals, before, after, r),
        SectionType::Colors => entries_result(s, q, 0, parent_id, EntryKind::Colors, before, after, r),
        SectionType::UvCoordinates => entries_result(s, q, header_start, parent_id, EntryKind::Uvs, before, after, r),
        SectionType::Materials => entries_result(s, q, header_start, parent_id, EntryKind::Materials, before, after, r),
        SectionType::Tevs => entries_result(s, q, 0, parent_id, EntryKind::Tevs, before, after, r),
        SectionType::Polygons => entries_result(s, q, header_start, parent_id, EntryKind::Polygons, before, after, r),
        SectionType::TextureLinks => entries_result(s, q, 0, parent_id, EntryKind::TextureLinks, before, after, r),
        SectionType::Bones => (r is Ok <==> skeleton_entries_ok(s, q) && skeleton_parents_ok(s, q) && skeleton_has_root(
            s,
            q,
        )) && (r matches Ok(body) ==> body.children@.len() == 1 && body.inspectable is None && after.slots().len()
            == before.slots().len() + u32_be(s, q + 4) && skeleton_built(after, before.slots().len() as int, s, q))
            && (r matches Err(e) ==> skeleton_error(s, q, e)),
        _ => r matches Ok(body) && body.children@.len() == 0 && body.inspectable is None && after.slots()
            == before.slots(),
    }
}

/// Each section is read as the records of its own type: the draw lists as bytecode,
/// the vertices section as vertex buffers, the normals section as normal buffers, and
/// so on; offsets inside vertex, normal, UV, material and polygon records count from
/// the start of the model.
pub proof fn lemma_sections_read_as_their_type(
    s: Seq<u8>,
    hs: u32,
    off: i32,
    pid: VirtualNodeId,
    before: &VirtualNodeMap,
    after: &VirtualNodeMap,
    r: EditorResult<VirtualNodeBody>,
)
    ensures
        ({
            let q = (hs as i64 + off as i64) as u64 as int;
            &&& section_result(s, hs, off, SectionType::DrawLists, pid, before, after, r) ==> entries_result(s, q, 0, pid, EntryKind::Bytecode, before, after, r)
            &&& section_result(s, hs, off, SectionType::Vertices, pid, before, after, r) ==> entries_result(s, q, hs, pid, EntryKind::Vertices, before, after, r)
            &&& section_result(s, hs, off, SectionType::Normals, pid, before, after, r) ==> entries_result(s, q, hs, pid, EntryKind::Normals, before, after, r)
            &&& section_result(s, hs, off, SectionType::Colors, pid, before, after, r) ==> entries_result(s, q, 0, pid, EntryKind::Colors, before, after, r)
            &&& section_result(s, hs, off, SectionType::UvCoordinates, pid, before, after, r) ==> entries_result(s, q, hs, pid, EntryKind::Uvs, before, after, r)
            &&& section_result(s, hs, off, SectionType::Materials, pid, before, after, r) ==> entries_result(s, q, hs, pid, EntryKind::Materials, before, after, r)
            &&& section_result(s, hs, off, SectionType::Tevs, pid, before, after, r) ==> entries_result(s, q, 0, pid, EntryKind::Tevs, before, after, r)
            &&& section_result(s, hs, off, SectionType::Polygons, pid, before, after, r) ==> entries_result(s, q, hs, pid, EntryKind::Polygons, before, after, r)
            &&& section_result(s, hs, off, SectionType::TextureLinks, pid, before, after, r) ==> entries_result(s, q, 0, pid, EntryKind::TextureLinks, before, after, r)
            &&& section_result(s, hs, off, SectionType::Bones, pid, before, after, r) ==> (r is Ok <==> skeleton_entries_ok(s, q) && skeleton_parents_ok(s, q) && skeleton_has_root(s, q))
        }),
{
}

/// Reads the section of type `section_ty` of the MDL0 subfile that starts at
/// `header_start`, `section_offset` bytes after that start; the nodes of its entries are
/// attached to `parent_id`. Sections of types that this crate does not read give an
/// empty body.
pub fn deserialize_section(
    reader: &mut RefCursor,
    header_start: u32,
    section_offset: i32,
    section_ty: SectionType,
    parent_id: VirtualNodeId,
    node_map: &mut VirtualNodeMap,
) -> (r: EditorResult<VirtualNodeBody>)
    ensures
        final(reader).bytes() == old(reader).bytes(),
        section_result(
            old(reader).bytes(),
            header_start,
            section_offset,
            section_ty,
            parent_id,
            &*old(node_map),
            &*final(node_map),
            r,
        ),
{
    let section_start: i64 = header_start as i64 + section_offset as i64;
    reader.set_position(section_start as u64);
    match section_ty {
        SectionType::DrawLists => bytecode::deserialize_virtual(reader, parent_id, node_map),
        SectionType::Bones => bone::deserialize_skeleton(reader, parent_id, node_map),
        SectionType::Vertices => vertices::deserialize_virtual(reader, header_start, parent_id, node_map),
        SectionType::Normals => normals::deserialize_normals_section(reader, header_start, parent_id, node_map),
        SectionType::Colors => colors::deserialize_virtual(reader, parent_id, node_map),
        SectionType::UvCoordinates => uvs::deserialize_virtual(reader, header_start, parent_id, node_map),
        SectionType::Materials => materials::deserialize_virtual(reader, header_start, parent_id, node_map),
        SectionType::Tevs => tevs::deserialize_virtual(reader, parent_id, node_map),
        SectionType::Polygons => polygons::deserialize_virtual(reader, header_start, parent_id, node_map),
        SectionType::TextureLinks => tex_links::deserialize_virtual(reader, parent_id, node_map),
        _ => Ok(VirtualNodeBody { children: Vec::new(), inspectable: None }),
    }
}

/// Indices `i < k` of the non-zero entries of `offsets`: the sections a model has.
pub open spec fn present_sections(offsets: Seq<i32>, k: nat) -> Seq<int>
    decreases k,
{
    if k == 0 {
        Seq::empty()
    } else {
        let prev = present_sections(offsets, (k - 1) as nat);
        if offsets[k - 1] != 0 {
            prev.push(k - 1)
        } else {
            prev
        }
    }
}

/// Whether `id` is the node of section `i` of the model whose node is `model`, read from
/// `reader` in the subfile at `header_start` with offset `offset`: labelled with the
/// name of the section, its body not read yet but described.
pub open spec fn section_node_ok(
    map: &VirtualNodeMap,
    id: VirtualNodeId,
    model: VirtualNodeId,
    i: int,
    header_start: u32,
    offset: i32,
    parent_id: VirtualNodeId,
    bytes: Seq<u8>,
) -> bool {
    map.node(id) matches Some(n) && {
        &&& n.id == id
        &&& n.label@ == section_label(i)
        &&& n.kind == VirtualNodeKind::BrresDirectory
        &&& n.parent == Some(model)
        &&& n.body matches Deferred::Deferred(DeferPayload { payload: Some(DeferredParse::Mdl0Section { reader, header_start: h, section_offset, section_ty, parent_id: pid }) })
            && reader.bytes() == bytes && h == header_start && section_offset == offset && section_ty == section_type_of(i as u32)
            && pid == parent_id
    }
}

/// Where an MDL0 subfile whose header is at `p` (just after its magic) can be read: its
/// subfile header (of version 11), model header, bone link table and index group.
pub open spec fn mdl0_readable(s: Seq<u8>, p: int) -> bool {
    let q = p + subfile_header_size(s, p, SubfileType::Mdl0);
    let q2 = q + u32_be(s, q);
    let q3 = q2 + 4 + 4 * u32_be(s, q2);
    &&& subfile_header_ok(s, p, SubfileType::Mdl0)
    &&& u32_be(s, p + 4) == 11
    &&& mdl0_header_ok(s, q)
    &&& link_table_ok(s, q2)
    &&& can_read(s, q3, index_group_size(s, q3))
}

/// Position just after the index group of the MDL0 subfile whose header is at `p`:
/// where reading its header, model header, bone links and index group leaves off.
pub open spec fn mdl0_headers_end(s: Seq<u8>, p: int) -> int {
    let q = p + subfile_header_size(s, p, SubfileType::Mdl0);
    let q2 = q + u32_be(s, q);
    let q3 = q2 + 4 + 4 * u32_be(s, q2);
    q3 + index_group_size(s, q3)
}

/// Whether `e` is the error that reading the MDL0 subfile whose header is at `p` gives
/// where it cannot be read: that of its subfile header, an unsupported-format error for
/// a version other than 11, that of its model header, else the end of the input within
/// its bone link table or index group.
pub open spec fn mdl0_error(s: Seq<u8>, p: int, e: EditorError) -> bool {
    let q = p + subfile_header_size(s, p, SubfileType::Mdl0);
    if !subfile_header_ok(s, p, SubfileType::Mdl0) {
        subfile_header_error(s, p, SubfileType::Mdl0, e)
    } else if u32_be(s, p + 4) != 11 {
        e is Unsupported
    } else if !mdl0_header_ok(s, q) {
        mdl0_header_error(s, q, e)
    } else {
        e is IoError
    }
}

/// Reads an MDL0 subfile whose magic has just been read from `reader`: its header, model
/// header, bone links and index group. Adds a node for the model, labelled `name` and
/// attached to `parent_id`, with a child for each section that the model has (a
/// non-zero offset); sections are read when their node is first evaluated.
pub fn deserialize_virtual(
    reader: &mut RefCursor,
    parent_id: VirtualNodeId,
    node_map: &mut VirtualNodeMap,
    name: String,
) -> (r: EditorResult<VirtualNodeId>)
    ensures
        final(reader).bytes() == old(reader).bytes(),
        old(node_map).extends(&*final(node_map)),
        r is Err ==> *final(node_map) == *old(node_map),
        ({
            let s = old(reader).bytes();
            let p = old(reader).pos();
            let base = old(node_map).slots().len() as int;
            let offsets = i32s_at(s, p + 12, 14);
            match r {
                Ok(id) => {
                    &&& mdl0_readable(s, p)
                    &&& final(reader).pos() == mdl0_headers_end(s, p)
                    &&& id.value() == base + 1
                    &&& final(node_map).slots().len() == base + 1 + present_sections(offsets, 14).len()
                    &&& node_is(&*final(node_map), id, name@, VirtualNodeKind::BrresDirectory, Some(parent_id))
                    &&& final(node_map).node(id)->0.body matches Deferred::Evaluated(b) && b.inspectable is None && {
                        let present = present_sections(offsets, 14);
                        &&& b.children@.len() == present.len()
                        &&& forall|j: int| 0 <= j < present.len() ==> (#[trigger] b.children@[j]).value() == base + 2 + j
                        &&& forall|j: int|
                            0 <= j < present.len() ==> #[trigger] section_node_ok(
                                &*final(node_map),
                                b.children@[j],
                                id,
                                present[j],
                                ((p as u32) - 4) as u32,
                                offsets[present[j]],
                                parent_id,
                                s,
                            )
                    }
                },
                Err(e) => !mdl0_readable(s, p) && mdl0_error(s, p, e),
            }
        }),
        ({
            let s = old(reader).bytes();
            let p = old(reader).pos();
            subfile_header_ok(s, p, SubfileType::Mdl0) && u32_be(s, p + 4) != 11 ==> (r matches Err(e) && e is Unsupported)
        }),
{
    let ghost s = reader.bytes();
    let ghost p = reader.pos();
    let subfile_header = SubfileHeader::deserialize(reader, SubfileType::Mdl0)?;
    if subfile_header.subfile_version != 11 {
        return Err(
            unsupported(
                reason_with_value(
                    "MDL0 version ",
                    subfile_header.subfile_version as u64,
                    " is not supported, only version 11 is",
                ),
                Some(reader.position()),
            ),
        );
    }
    let expected_sections = get_section_count(SubfileType::Mdl0, subfile_header.subfile_version)?;
    if subfile_header.offsets.len() != expected_sections {
        return Err(corrupted("invalid section count".to_owned(), Some(reader.position())));
    }
    let _mdl0_header = Mdl0Header::deserialize(reader)?;
    let _bone_links = BoneLinkTable::deserialize(reader)?;
    let _index_group = IndexGroup::deserialize(reader)?;
    let ghost base = old(node_map).slots().len() as int;
    let mdl_node_id = node_map.next_id();
    let ghost offsets = subfile_header.offsets@;
    assert(offsets == i32s_at(s, p + 12, 14));
    let mut files: Vec<VirtualNodeId> = Vec::new();
    let ghost mut present: Seq<int> = Seq::empty();
    let mut i: usize = 0;
    while i < 14
        invariant
            reader.bytes() == s,
            s == old(reader).bytes(),
            offsets == subfile_header.offsets@,
            offsets.len() == 14,
            subfile_header.header_start == ((p as u32) - 4) as u32,
            i <= 14,
            mdl_node_id.value() == base + 1,
            base == old(node_map).slots().len(),
            old(node_map).extends(&*node_map),
            node_map.slots().len() == base + 1 + files@.len(),
            node_map.node(mdl_node_id) is None,
            reader.pos() == mdl0_headers_end(s, p),
            present == present_sections(offsets, i as nat),
            files@.len() == present.len(),
            forall|j: int| 0 <= j < files@.len() ==> (#[trigger] files@[j]).value() == base + 2 + j,
            forall|j: int|
                0 <= j < files@.len() ==> #[trigger] section_node_ok(
                    &*node_map,
                    files@[j],
                    mdl_node_id,
                    present[j],
                    ((p as u32) - 4) as u32,
                    offsets[present[j]],
                    parent_id,
                    s,
                ) && base + 1 < files@[j].value() <= node_map.slots().len(),
        decreases 14 - i,
    {
        let section_offset = subfile_header.offsets[i];
        if section_offset != 0 {
            let section_ty = SectionType::try_from(i as u32)?;
            let section_reader = reader.clone();
            let ghost before = *node_map;
            let section_id = node_map.next_id();
            let body = Deferred::defer(
                DeferredParse::Mdl0Section {
                    reader: section_reader,
                    header_start: subfile_header.header_start,
                    section_offset,
                    section_ty,
                    parent_id,
                },
            )?;
            let node = VirtualNode {
                label: mdl0_section_name(i),
                id: section_id,
                parent: Some(mdl_node_id),
                kind: VirtualNodeKind::BrresDirectory,
                body,
            };
            node_map.insert(section_id, node);
            files.push(section_id);
            proof {
                let old_present = present;
                present = present.push(i as int);
                assert forall|j: int| 0 <= j < files@.len() implies #[trigger] section_node_ok(
                    &*node_map,
                    files@[j],
                    mdl_node_id,
                    present[j],
                    ((p as u32) - 4) as u32,
                    offsets[present[j]],
                    parent_id,
                    s,
                ) && base + 1 < files@[j].value() <= node_map.slots().len() by {
                    if j < files@.len() - 1 {
                        assert(present[j] == old_present[j]);
                        assert(section_node_ok(
                            &before,
                            files@[j],
                            mdl_node_id,
                            old_present[j],
                            ((p as u32) - 4) as u32,
                            offsets[old_present[j]],
                            parent_id,
                            s,
                        ));
                        assert(node_map.node(files@[j]) == before.node(files@[j]));
                    } else {
                        assert(files@[j] == section_id);
                        assert(present[j] == i);
                    }
                }
            }
        }
        i = i + 1;
    }
    let ghost before = *node_map;
    let node = VirtualNode {
        label: name,
        id: mdl_node_id,
        parent: Some(parent_id),
        kind: VirtualNodeKind::BrresDirectory,
        body: Deferred::evaluated(VirtualNodeBody { children: files, inspectable: None }),
    };
    node_map.insert(mdl_node_id, node);
    proof {
        assert forall|j: int| 0 <= j < files@.len() implies #[trigger] section_node_ok(
            &*node_map,
            files@[j],
            mdl_node_id,
            present_sections(offsets, 14)[j],
            ((p as u32) - 4) as u32,
            offsets[present_sections(offsets, 14)[j]],
            parent_id,
            s,
        ) by {
            assert(section_node_ok(
                &before,
                files@[j],
                mdl_node_id,
                present[j],
                ((p as u32) - 4) as u32,
                offsets[present[j]],
                parent_id,
                s,
            ));
            assert(node_map.node(files@[j]) == before.node(files@[j]));
        }
    }
    Ok(mdl_node_id)
}

} // verus!
