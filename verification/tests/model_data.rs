use mktools::error::EditorError;
use mktools::format::encoding::Deserialize;
use mktools::format::mdl0::bones::{BillboardSetting, BoneFlags, Bones};
use mktools::format::mdl0::colors::{deserialize_color, ColorComponents, ColorFormat, Colors};
use mktools::format::mdl0::normals::{NormalBuf, NormalFormat};
use mktools::format::mdl0::util::{
    deserialize_scalar, deserialize_scalar_data, deserialize_vector, deserialize_vector_data, Scalar, VectorDivisor,
    VertexFormat,
};
use mktools::format::mdl0::{
    mdl0_section_name, BoneLinkTable, Mdl0Header, ScalingMode, SectionType, TextureMatrixMode,
};
use mktools::format::mdl0::bone::deserialize_skeleton;
use mktools::node::node::VirtualNodeKind;
use mktools::node::refs::{VirtualNodeId, VirtualRefCacheMap};
use mktools::shared::util::RefCursor;

fn cursor(bytes: &[u8]) -> RefCursor {
    RefCursor::new(bytes.to_vec())
}

fn scalar_value(s: Scalar) -> f64 {
    match s {
        Scalar::Fixed { raw, shift } => raw as f64 / (1u64 << shift) as f64,
        Scalar::Float { bits } => f32::from_bits(bits) as f64,
    }
}

#[test]
fn vertex_format_codes() {
    assert_eq!(VertexFormat::from_bits(0), VertexFormat::Uint8);
    assert_eq!(VertexFormat::from_bits(3), VertexFormat::Int16);
    assert_eq!(VertexFormat::from_bits(4), VertexFormat::Float32);
    assert_eq!(VertexFormat::from_bits(9), VertexFormat::Invalid);
    assert_eq!(VertexFormat::Int8.into_bits(), 1);
    assert_eq!(VertexFormat::Invalid.into_bits(), 5);
    assert_eq!(VertexFormat::try_from(2).ok(), Some(VertexFormat::Uint16));
    assert!(matches!(VertexFormat::try_from(5), Err(EditorError::Corrupted { .. })));
}

#[test]
fn normal_formats_convert_to_vertex_formats_of_the_same_code() {
    for code in 0u8..8 {
        let n = NormalFormat::from_bits(code);
        let v = VertexFormat::from(n);
        if n != NormalFormat::Invalid {
            assert_eq!(v.into_bits(), code);
        } else {
            assert_eq!(v, VertexFormat::Invalid);
        }
    }
    assert_eq!(NormalFormat::try_from(3).ok(), Some(NormalFormat::Int16));
    assert!(matches!(NormalFormat::try_from(2), Err(EditorError::Corrupted { .. })));
    assert!(matches!(NormalFormat::try_from(0), Err(EditorError::Corrupted { .. })));
}

#[test]
fn unsigned_byte_scalar_with_custom_divisor() {
    let mut r = cursor(&[0x80, 0x01]);
    let s = deserialize_scalar(&mut r, VertexFormat::Uint8, VectorDivisor::Custom(2)).ok().unwrap();
    assert_eq!(s, Scalar::Fixed { raw: 128, shift: 2 });
    assert_eq!(scalar_value(s), 32.0);
    assert_eq!(r.position(), 1);
}

#[test]
fn signed_formats_normalize_to_unit_range() {
    let mut r = cursor(&[0x80]);
    let s = deserialize_scalar(&mut r, VertexFormat::Int8, VectorDivisor::Normalize).ok().unwrap();
    assert_eq!(s, Scalar::Fixed { raw: -128, shift: 7 });
    assert_eq!(scalar_value(s), -1.0);
    let mut r = cursor(&[0x40, 0x00]);
    let s = deserialize_scalar(&mut r, VertexFormat::Int16, VectorDivisor::Normalize).ok().unwrap();
    assert_eq!(s, Scalar::Fixed { raw: 0x4000, shift: 15 });
    assert_eq!(scalar_value(s), 0.5);
}

#[test]
fn unsigned_formats_cannot_normalize() {
    let mut r = cursor(&[1, 2, 3, 4]);
    assert!(matches!(
        deserialize_scalar(&mut r, VertexFormat::Uint16, VectorDivisor::Normalize),
        Err(EditorError::InvalidInput { .. })
    ));
    assert!(matches!(
        deserialize_scalar(&mut r, VertexFormat::Invalid, VectorDivisor::Custom(0)),
        Err(EditorError::InvalidInput { .. })
    ));
}

#[test]
fn float_scalars_keep_their_bits() {
    let mut r = cursor(&1.5f32.to_be_bytes());
    let s = deserialize_scalar(&mut r, VertexFormat::Float32, VectorDivisor::Custom(6)).ok().unwrap();
    assert_eq!(s, Scalar::Float { bits: 1.5f32.to_bits() });
    assert_eq!(scalar_value(s), 1.5);
}

#[test]
fn short_scalar_data_is_end_of_input() {
    let mut r = cursor(&[0, 1, 0]);
    assert!(matches!(
        deserialize_scalar_data(&mut r, 2, VertexFormat::Uint16, VectorDivisor::Custom(0)),
        Err(EditorError::IoError { .. })
    ));
}

#[test]
fn vectors_are_read_one_after_another() {
    let bytes = [0x00, 0x01, 0xFF, 0xFF, 0x00, 0x10, 0x00, 0x02, 0x00, 0x03, 0x80, 0x00];
    let mut r = cursor(&bytes);
    let v = deserialize_vector(&mut r, 3, VertexFormat::Int16, VectorDivisor::Custom(4)).ok().unwrap();
    assert_eq!(v, vec![
        Scalar::Fixed { raw: 1, shift: 4 },
        Scalar::Fixed { raw: -1, shift: 4 },
        Scalar::Fixed { raw: 16, shift: 4 },
    ]);
    let mut r = cursor(&bytes);
    let vs = deserialize_vector_data(&mut r, 2, 3, VertexFormat::Int16, VectorDivisor::Custom(0)).ok().unwrap();
    assert_eq!(vs.len(), 2);
    assert_eq!(vs[1], vec![
        Scalar::Fixed { raw: 2, shift: 0 },
        Scalar::Fixed { raw: 3, shift: 0 },
        Scalar::Fixed { raw: -32768, shift: 0 },
    ]);
    assert_eq!(r.position(), 12);
}

#[test]
fn color_codes() {
    assert_eq!(ColorComponents::try_from(0).ok(), Some(ColorComponents::Rgb));
    assert_eq!(ColorComponents::try_from(1).ok(), Some(ColorComponents::Rgba));
    assert!(matches!(ColorComponents::try_from(2), Err(EditorError::Corrupted { .. })));
    assert_eq!(ColorFormat::try_from(4).ok(), Some(ColorFormat::Rgba24));
    assert!(matches!(ColorFormat::try_from(6), Err(EditorError::Corrupted { .. })));
    assert_eq!(ColorFormat::Rgb565.stride(), 2);
    assert_eq!(ColorFormat::Rgb24.stride(), 3);
    assert_eq!(ColorFormat::Rgba32.stride(), 4);
}

#[test]
fn rgb565_stretches_channels() {
    let mut r = cursor(&[0xF8, 0x00]);
    assert_eq!(deserialize_color(&mut r, ColorFormat::Rgb565).ok(), Some([255, 0, 0, 255]));
    let mut r = cursor(&[0x84, 0x10]);
    // red 16, green 32, blue 16
    assert_eq!(deserialize_color(&mut r, ColorFormat::Rgb565).ok(), Some([132, 130, 132, 255]));
    assert_eq!(r.position(), 2);
}

#[test]
fn rgba16_repeats_nibbles() {
    let mut r = cursor(&[0x1F, 0x80]);
    assert_eq!(deserialize_color(&mut r, ColorFormat::Rgba16).ok(), Some([0x11, 0xFF, 0x88, 0x00]));
}

#[test]
fn rgba24_stretches_six_bit_channels() {
    let mut r = cursor(&[0xFC, 0x0F, 0xC1]);
    // red 63, green 0, blue 63, alpha 1
    assert_eq!(deserialize_color(&mut r, ColorFormat::Rgba24).ok(), Some([255, 0, 255, 4]));
    assert_eq!(r.position(), 3);
}

#[test]
fn byte_formats_copy_channels() {
    let mut r = cursor(&[1, 2, 3]);
    assert_eq!(deserialize_color(&mut r, ColorFormat::Rgb24).ok(), Some([1, 2, 3, 255]));
    let mut r = cursor(&[1, 2, 3, 4]);
    assert_eq!(deserialize_color(&mut r, ColorFormat::Rgbx32).ok(), Some([1, 2, 3, 255]));
    let mut r = cursor(&[1, 2, 3, 4]);
    assert_eq!(deserialize_color(&mut r, ColorFormat::Rgba32).ok(), Some([1, 2, 3, 4]));
    let mut r = cursor(&[1, 2]);
    assert!(matches!(deserialize_color(&mut r, ColorFormat::Rgba32), Err(EditorError::IoError { .. })));
}

#[test]
fn color_extremes_stay_extremes() {
    for f in [ColorFormat::Rgb565, ColorFormat::Rgba16, ColorFormat::Rgba24] {
        let mut r = cursor(&[0xFF, 0xFF, 0xFF]);
        let c = deserialize_color(&mut r, f).ok().unwrap();
        assert_eq!(c, [255, 255, 255, 255]);
        let mut r = cursor(&[0, 0, 0]);
        let c = deserialize_color(&mut r, f).ok().unwrap();
        assert_eq!(&c[..3], &[0, 0, 0]);
    }
}

#[test]
fn bone_flag_bits() {
    let f = BoneFlags::from_word(0x0000_0101);
    assert!(f.is_visible);
    assert!(f.use_identity);
    assert!(!f.is_display_matrix);
    assert!(!f.scale_uniform);
    let f = BoneFlags::from_word(0x0000_0600);
    assert!(f.is_billboard_child && f.is_display_matrix && !f.is_visible);
}

#[test]
fn billboard_settings() {
    assert_eq!(BillboardSetting::len(), 7);
    assert_eq!(BillboardSetting::try_from(0).ok(), Some(BillboardSetting::Off));
    assert_eq!(BillboardSetting::try_from(6).ok(), Some(BillboardSetting::InfluencedOnlyYDirectZ));
    assert!(matches!(BillboardSetting::try_from(7), Err(EditorError::Corrupted { .. })));
    for v in 0..BillboardSetting::len() as u32 {
        assert!(BillboardSetting::try_from(v).is_ok());
    }
}

fn word(b: &mut Vec<u8>, v: u32) {
    b.extend_from_slice(&v.to_be_bytes());
}

#[test]
fn bone_record_fields_and_length() {
    let mut b = Vec::new();
    word(&mut b, 0xD0); // length
    word(&mut b, 0xFFFF_FF00); // mdl0 offset
    word(&mut b, 0x40); // name offset
    word(&mut b, 2); // index
    word(&mut b, 5); // id
    word(&mut b, 0x100); // flags
    word(&mut b, 3); // billboard
    word(&mut b, 0);
    for i in 0..15 {
        word(&mut b, i);
    }
    for i in 0..5 {
        word(&mut b, 100 + i);
    }
    for i in 0..24 {
        word(&mut b, 200 + i);
    }
    assert_eq!(b.len(), 208);
    let mut r = RefCursor::new(b);
    let bone = Bones::deserialize_section(&mut r, 0).ok().unwrap();
    assert_eq!(bone.mdl0_offset, -256);
    assert_eq!(bone.index, 2);
    assert_eq!(bone.id, 5);
    assert!(bone.flags.is_visible);
    assert_eq!(bone.billboard_setting, BillboardSetting::RestrictedParallelZ);
    assert_eq!(bone.scaling_vector, [0, 1, 2]);
    assert_eq!(bone.bounding_volume_max, [12, 13, 14]);
    assert_eq!(bone.parent_offset, 100);
    assert_eq!(bone.user_data_offset, 104);
    assert_eq!(bone.transform_matrix[0], 200);
    assert_eq!(bone.inverse_matrix[11], 223);
    assert_eq!(r.position(), 0xD0);
}

#[test]
fn bone_record_with_bad_billboard_is_corrupt() {
    let mut b = vec![0u8; 208];
    b[27] = 9;
    let mut r = RefCursor::new(b);
    assert!(matches!(Bones::deserialize_section(&mut r, 0), Err(EditorError::Corrupted { .. })));
}

#[test]
fn model_modes() {
    assert_eq!(ScalingMode::try_from(1).ok(), Some(ScalingMode::Softimage));
    assert!(matches!(ScalingMode::try_from(3), Err(EditorError::Corrupted { .. })));
    assert_eq!(TextureMatrixMode::try_from(2).ok(), Some(TextureMatrixMode::ThreeDsMax));
    assert!(matches!(TextureMatrixMode::try_from(7), Err(EditorError::Corrupted { .. })));
}

#[test]
fn section_types_and_names() {
    assert_eq!(SectionType::try_from(0).ok(), Some(SectionType::DrawLists));
    assert!(matches!(SectionType::try_from(14), Err(EditorError::Corrupted { .. })));
    assert_eq!(mdl0_section_name(0), "Bytecode");
    assert_eq!(mdl0_section_name(11), "Texture links");
    assert_eq!(mdl0_section_name(13), "User data");
}

#[test]
fn model_header_fields() {
    let mut b = Vec::new();
    word(&mut b, 0x48); // length
    word(&mut b, 0xFFFF_FFF0); // file header offset
    word(&mut b, 2); // scaling
    word(&mut b, 1); // texture matrix
    word(&mut b, 300); // vertices
    word(&mut b, 200); // faces
    word(&mut b, 0);
    word(&mut b, 7); // matrices
    b.extend_from_slice(&[1, 0, 1, 0]);
    word(&mut b, 0x40); // matrix table
    for i in 0..6 {
        word(&mut b, i);
    }
    assert_eq!(b.len(), 64);
    b.extend_from_slice(&[0; 8]);
    let mut r = RefCursor::new(b);
    let h = Mdl0Header::deserialize(&mut r).ok().unwrap();
    assert_eq!(h.file_header_offset, -16);
    assert_eq!(h.scaling_mode, ScalingMode::Maya);
    assert_eq!(h.texture_matrix_mode, TextureMatrixMode::Xsi);
    assert_eq!(h.vertex_count, 300);
    assert_eq!(h.face_count, 200);
    assert_eq!(h.matrix_count, 7);
    assert!(h.require_normalized_matrix_array);
    assert!(!h.require_texture_matrix_array);
    assert!(h.enable_bounding_volume_data);
    assert_eq!(h.matrix_table_offset, 0x40);
    assert_eq!(h.bounding_volume_minimum, [0, 1, 2]);
    assert_eq!(h.bounding_volume_maximum, [3, 4, 5]);
    assert_eq!(r.position(), 0x48);
}

#[test]
fn bone_link_table_splits_entries() {
    let mut b = Vec::new();
    word(&mut b, 5);
    word(&mut b, 10);
    word(&mut b, 11);
    word(&mut b, 0xFFFF_FFFF);
    word(&mut b, 12);
    word(&mut b, 0xFFFF_FFFF);
    let mut r = RefCursor::new(b);
    let t = BoneLinkTable::deserialize(&mut r).ok().unwrap();
    assert_eq!(t.driven_matrices.len(), 2);
    assert_eq!(t.driven_matrices.get(&0), Some(&10));
    assert_eq!(t.driven_matrices.get(&1), Some(&11));
    assert_eq!(t.blended_matrices, vec![2, 4]);
    assert_eq!(t.unconnected_bones, vec![12]);
    assert_eq!(t.len(), 5);
    assert_eq!(r.position(), 24);
}

#[test]
fn bone_link_table_short_input() {
    let mut b = Vec::new();
    word(&mut b, 3);
    word(&mut b, 1);
    let mut r = RefCursor::new(b);
    assert!(matches!(BoneLinkTable::deserialize(&mut r), Err(EditorError::IoError { .. })));
}

#[test]
fn normal_buffer_with_three_vectors_per_entry() {
    let mut b = Vec::new();
    word(&mut b, 0x20); // length
    word(&mut b, 0); // mdl0 offset
    word(&mut b, 0x20); // data offset
    word(&mut b, 0); // name offset
    word(&mut b, 4); // index
    word(&mut b, 1); // all three vectors
    word(&mut b, 1); // Int8
    b.extend_from_slice(&[6, 9, 0, 1]); // divisor 6, stride 9, one entry
    b.extend_from_slice(&[64, 0, 0, 0, 64, 0, 0, 0, 64]);
    let mut r = RefCursor::new(b);
    let nb = NormalBuf::deserialize(&mut r, 0).ok().unwrap();
    assert_eq!(nb.index, 4);
    assert_eq!(nb.format, NormalFormat::Int8);
    assert_eq!(nb.divisor, 6);
    assert_eq!(nb.stride, 9);
    assert_eq!(nb.normals.len(), 1);
    let n = nb.get_normal(0).unwrap();
    assert_eq!(n.len(), 3);
    assert_eq!(scalar_value(n[0]), 1.0);
    assert_eq!(scalar_value(n[1]), 0.0);
    assert!(nb.get_normal(1).is_none());
}

#[test]
fn normal_buffer_with_bad_layout_is_corrupt() {
    let mut b = Vec::new();
    word(&mut b, 0x20);
    word(&mut b, 0);
    word(&mut b, 0x20);
    word(&mut b, 0);
    word(&mut b, 0);
    word(&mut b, 7); // no such layout
    word(&mut b, 4);
    b.extend_from_slice(&[0, 12, 0, 0]);
    let mut r = RefCursor::new(b);
    assert!(matches!(NormalBuf::deserialize(&mut r, 0), Err(EditorError::Corrupted { .. })));
}

#[test]
fn vertex_format_codes_read_back() {
    for code in 0u8..5 {
        assert_eq!(VertexFormat::from_bits(code).into_bits(), code);
    }
    for f in [
        VertexFormat::Uint8,
        VertexFormat::Int8,
        VertexFormat::Uint16,
        VertexFormat::Int16,
        VertexFormat::Float32,
        VertexFormat::Invalid,
    ] {
        assert_eq!(VertexFormat::from_bits(f.into_bits()), f);
    }
}

fn bone_with_parent(b: &mut Vec<u8>, index: u32, parent_offset: i32) {
    word(b, 0xD0); // length
    word(b, 0); // mdl0 offset
    word(b, 0); // name offset
    word(b, index);
    word(b, index); // id
    word(b, 0); // flags
    word(b, 0); // billboard
    word(b, 0);
    for _ in 0..15 {
        word(b, 0);
    }
    word(b, parent_offset as u32);
    for _ in 0..4 {
        word(b, 0);
    }
    for _ in 0..24 {
        word(b, 0);
    }
}

/// A bones section with bones `a` (the root), `b` (whose parent record is that of `a`)
/// and `c` (whose parent record is that of `b`); the index field of `b`'s record is
/// `b_index`, so `c`'s parent is the bone with that index.
fn skeleton(b_index: u32) -> Vec<u8> {
    let mut b = Vec::new();
    word(&mut b, 8 + 16 * 4);
    word(&mut b, 3);
    b.extend_from_slice(&[0xff, 0xff, 0, 0, 0, 1, 0, 1]);
    word(&mut b, 0);
    word(&mut b, 0);
    for (name_pointer, data_pointer) in [(76u32, 96u32), (84, 304), (92, 512)] {
        b.extend_from_slice(&[0; 8]);
        word(&mut b, name_pointer);
        word(&mut b, data_pointer);
    }
    assert_eq!(b.len(), 72);
    for n in [b'a', b'b', b'c'] {
        word(&mut b, 1);
        b.extend_from_slice(&[n, 0, 0, 0]);
    }
    assert_eq!(b.len(), 96);
    bone_with_parent(&mut b, 0, 0);
    bone_with_parent(&mut b, b_index, 96 - 304);
    bone_with_parent(&mut b, 2, 304 - 512);
    assert_eq!(b.len(), 720);
    b
}

/// IDs 1 to 4, as a fresh map hands them out.
fn first_ids() -> [VirtualNodeId; 4] {
    let mut m = VirtualRefCacheMap::new();
    [m.next_id(), m.next_id(), m.next_id(), m.next_id()]
}

#[test]
fn skeleton_links_bones_to_their_parents() {
    let [parent, a, b, c] = first_ids();
    let mut map = VirtualRefCacheMap::new();
    assert_eq!(map.next_id(), parent);
    let mut r = RefCursor::new(skeleton(1));
    let body = deserialize_skeleton(&mut r, parent, &mut map).ok().unwrap();
    assert_eq!(body.children, vec![a]);
    assert_eq!(map.get(a).unwrap().label, "a");
    assert_eq!(map.get(a).unwrap().parent, None);
    assert_eq!(map.get_children(a).unwrap().clone(), vec![b]);
    assert_eq!(map.get(b).unwrap().parent, Some(a));
    assert_eq!(map.get_children(b).unwrap().clone(), vec![c]);
    assert_eq!(map.get(c).unwrap().parent, Some(b));
    assert_eq!(map.get(c).unwrap().kind, VirtualNodeKind::Bone { end: true });
    assert_eq!(map.get(b).unwrap().kind, VirtualNodeKind::Bone { end: false });
}

#[test]
fn skeleton_with_a_bone_that_is_its_own_parent_keeps_the_bones_read_so_far() {
    let [parent, a, b, c] = first_ids();
    let mut map = VirtualRefCacheMap::new();
    assert_eq!(map.next_id(), parent);
    let mut r = RefCursor::new(skeleton(2));
    assert!(matches!(deserialize_skeleton(&mut r, parent, &mut map), Err(EditorError::InvalidInput { .. })));
    // every bone has its node; those before `c` are attached to their parents
    assert_eq!(map.get(a).unwrap().label, "a");
    assert_eq!(map.get_children(a).unwrap().clone(), vec![b]);
    assert_eq!(map.get(b).unwrap().parent, Some(a));
    assert_eq!(map.get(c).unwrap().label, "c");
    assert_eq!(map.get(c).unwrap().parent, None);
    assert!(map.get_children(b).unwrap().is_empty());
    assert_eq!(map.next_id().into_inner(), 5);
}

#[test]
fn refused_format_and_divisor_consume_nothing() {
    let mut r = cursor(&[9, 1, 2, 3, 4]);
    r.set_position(1);
    match deserialize_vector(&mut r, 2, VertexFormat::Uint16, VectorDivisor::Normalize) {
        Err(EditorError::InvalidInput { source }) => assert_eq!(source.location, Some(1)),
        _ => panic!("expected an invalid input"),
    }
    assert_eq!(r.position(), 1);
    match deserialize_vector_data(&mut r, 1, 2, VertexFormat::Invalid, VectorDivisor::Custom(3)) {
        Err(EditorError::InvalidInput { source }) => assert_eq!(source.location, None),
        _ => panic!("expected an invalid input"),
    }
    assert_eq!(r.position(), 1);
}

#[test]
fn color_buffer_ends_after_its_last_color() {
    let mut b = Vec::new();
    for v in [0u32, 0, 0x20, 0, 0, 0, 0] {
        word(&mut b, v);
    }
    b.extend_from_slice(&[2, 0, 0, 3]);
    b.extend_from_slice(&[0xF8, 0x00, 0x07, 0xE0, 0x00, 0x1F]);
    assert_eq!(b.len(), 38);
    let mut r = RefCursor::new(b);
    let c = Colors::deserialize(&mut r).ok().unwrap();
    assert_eq!(c.format, ColorFormat::Rgb565);
    assert_eq!(c.colors, vec![[255, 0, 0, 255], [0, 255, 0, 255], [0, 0, 255, 255]]);
    assert_eq!(r.position(), 38);
}
