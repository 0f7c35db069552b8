use mktools::error::EditorError;
use mktools::format::chr0::{
    AnimationCode, AnimationFormat, AnimationPolicy, AnimationType, Chr0Header, Chr0Subfile, ComponentType, I4Frame,
    L1Animation, ScalingRule, CHR0_MAGIC,
};
use mktools::format::encoding::Deserialize;
use mktools::format::pat0::{Pat0Header, Pat0Subfile, U32Section, PAT0_MAGIC};
use mktools::shared::util::RefCursor;

fn word(b: &mut Vec<u8>, v: u32) {
    b.extend_from_slice(&v.to_be_bytes());
}

#[test]
fn policies_and_rules() {
    assert_eq!(AnimationPolicy::try_from(1).ok(), Some(AnimationPolicy::Loop));
    assert!(matches!(AnimationPolicy::try_from(2), Err(EditorError::Corrupted { .. })));
    assert_eq!(ScalingRule::try_from(2).ok(), Some(ScalingRule::Maya));
    assert!(matches!(ScalingRule::try_from(3), Err(EditorError::Corrupted { .. })));
}

#[test]
fn linear_formats_have_bit_two() {
    let all = [
        (0u8, AnimationFormat::Fixed, false),
        (1, AnimationFormat::Interpolated4, false),
        (2, AnimationFormat::Interpolated6, false),
        (3, AnimationFormat::Interpolated12, false),
        (4, AnimationFormat::Linear1, true),
        (5, AnimationFormat::Invalid, true),
        (6, AnimationFormat::Linear4, true),
        (7, AnimationFormat::Invalid, true),
    ];
    for (bits, format, linear) in all {
        let f = AnimationFormat::from_bits(bits);
        assert_eq!(f, format);
        assert_eq!(f.is_linear(), linear);
    }
    assert_eq!(AnimationFormat::Linear4.into_bits(), 6);
    assert_eq!(AnimationFormat::Invalid.into_bits(), 7);
}

#[test]
fn animation_code_fields() {
    let w = (1 << 22) | (1 << 3) | (1 << 13) | (1 << 23) | (1 << 16) | (1 << 17) | (4 << 27) | (2 << 25) | (3 << 30);
    let c = AnimationCode::from_bits(w);
    assert!(c.has_scale() && c.has_rotation() && !c.has_translation());
    assert!(c.scale_isotropic());
    assert!(c.scale_x_fixed() && !c.scale_y_fixed());
    assert!(c.rotation_x_fixed() && c.rotation_y_fixed() && !c.rotation_z_fixed());
    assert_eq!(c.scale_format(), AnimationFormat::Interpolated6);
    assert_eq!(c.rotation_format(), AnimationFormat::Linear1);
    assert_eq!(c.translation_format(), AnimationFormat::Interpolated12);
    assert_eq!(c.into_bits(), w);
}

#[test]
fn chr0_header_fields() {
    let mut b = Vec::new();
    b.extend_from_slice(&[0, 10, 0, 2]);
    word(&mut b, 0);
    word(&mut b, 1);
    let mut r = RefCursor::new(b);
    let h = Chr0Header::deserialize(&mut r).ok().unwrap();
    assert_eq!(h, Chr0Header {
        frame_count: 10,
        anim_data_count: 2,
        anim_policy: AnimationPolicy::OneTime,
        scaling_rule: ScalingRule::Softimage,
    });
    let mut b = Vec::new();
    b.extend_from_slice(&[0, 10, 0, 2]);
    word(&mut b, 5);
    word(&mut b, 1);
    let mut r = RefCursor::new(b);
    assert!(matches!(Chr0Header::deserialize(&mut r), Err(EditorError::Corrupted { .. })));
}

#[test]
fn interpolated_frame_word() {
    let mut r = RefCursor::new(vec![0x05, 0x12, 0x34, 0x56]);
    let f = I4Frame::deserialize(&mut r).ok().unwrap();
    assert_eq!(f.index, 0x05);
    assert_eq!(f.step, 0x23);
    assert_eq!(f.tangent, 0x0512_3456 >> 20);
}

#[test]
fn linear_frames_follow_the_header_count() {
    let mut b = Vec::new();
    word(&mut b, 1.0f32.to_bits());
    word(&mut b, 2.0f32.to_bits());
    b.extend_from_slice(&[7, 8, 9, 10]);
    let mut r = RefCursor::new(b.clone());
    let a = L1Animation::deserialize(&mut r, 3).ok().unwrap();
    assert_eq!(a.step, 1.0f32.to_bits());
    assert_eq!(a.base, 2.0f32.to_bits());
    assert_eq!(a.frames, vec![7, 8, 9]);
    assert_eq!(r.position(), 11);
    let mut r = RefCursor::new(b);
    assert!(matches!(L1Animation::deserialize(&mut r, 5), Err(EditorError::IoError { .. })));
}

/// A CHR0 subfile of three frames that animates one bone, `bone0`: a fixed isotropic
/// scale, and a rotation fixed in x and y and animated linearly in z.
fn chr0() -> Vec<u8> {
    let mut b = Vec::new();
    b.extend_from_slice(&CHR0_MAGIC);
    word(&mut b, 131);
    word(&mut b, 5);
    word(&mut b, 0);
    word(&mut b, 44);
    word(&mut b, 0);
    word(&mut b, 0);
    word(&mut b, 0); // padding
    b.extend_from_slice(&[0, 3, 0, 1]);
    word(&mut b, 1);
    word(&mut b, 0);
    assert_eq!(b.len(), 44);
    word(&mut b, 40);
    word(&mut b, 1);
    b.extend_from_slice(&[0xff, 0xff, 0, 0, 0, 1, 0, 1]);
    word(&mut b, 0);
    word(&mut b, 0);
    b.extend_from_slice(&[0, 0, 0, 0, 0, 0, 0, 0]);
    word(&mut b, 88 - 44);
    word(&mut b, 96 - 44);
    word(&mut b, 5);
    b.extend_from_slice(b"bone0\0\0\0");
    assert_eq!(b.len(), 96);
    let code = 1 | (1 << 22) | (1 << 3) | (1 << 13) | (1 << 23) | (1 << 16) | (1 << 17) | (4 << 27);
    word(&mut b, 0);
    word(&mut b, code);
    word(&mut b, 1.0f32.to_bits()); // scale
    word(&mut b, 0); // rotation x
    word(&mut b, 90.0f32.to_bits()); // rotation y
    word(&mut b, 24); // rotation z frames, after the bone data
    word(&mut b, 0.5f32.to_bits());
    word(&mut b, 0);
    b.extend_from_slice(&[0, 1, 2]);
    b
}

#[test]
fn chr0_subfile_with_one_bone() {
    let mut r = RefCursor::new(chr0());
    r.set_position(4);
    let c = Chr0Subfile::deserialize(&mut r).ok().unwrap();
    assert_eq!(c.subfile_header.subfile_version, 5);
    assert_eq!(c.chr0_header.frame_count, 3);
    assert_eq!(c.chr0_header.anim_policy, AnimationPolicy::Loop);
    assert_eq!(c.bones.len(), 1);
    let bone = &c.bones[0];
    assert_eq!(bone.name, "bone0");
    let scale = bone.anim_data.scale.as_ref().unwrap();
    assert_eq!(scale.x, ComponentType::Fixed(1.0f32.to_bits()));
    assert_eq!(scale.y, scale.x);
    assert_eq!(scale.z, scale.x);
    let rotation = bone.anim_data.rotation.as_ref().unwrap();
    assert_eq!(rotation.y, ComponentType::Fixed(90.0f32.to_bits()));
    match &rotation.z {
        ComponentType::Animated(AnimationType::Linear1(a)) => {
            assert_eq!(a.step, 0.5f32.to_bits());
            assert_eq!(a.frames, vec![0, 1, 2]);
        },
        _ => panic!("expected linear frames"),
    }
    assert!(bone.anim_data.translation.is_none());
}

#[test]
fn chr0_with_frames_past_the_end_fails() {
    let mut b = chr0();
    b.truncate(129);
    let mut r = RefCursor::new(b);
    r.set_position(4);
    assert!(matches!(Chr0Subfile::deserialize(&mut r), Err(EditorError::IoError { .. })));
}

#[test]
fn chr0_with_unread_formats_is_unsupported() {
    let mut b = chr0();
    // rotation frames in the linear 4-byte format
    b[100] = (6 << 3) as u8 | (b[100] & 0x07);
    let mut r = RefCursor::new(b);
    r.set_position(4);
    assert!(matches!(Chr0Subfile::deserialize(&mut r), Err(EditorError::Unsupported { .. })));
}

#[test]
fn pat0_parts() {
    let mut b = Vec::new();
    word(&mut b, 0);
    b.extend_from_slice(&[0, 20, 0, 1, 0, 2]);
    word(&mut b, 0);
    b.extend_from_slice(&[0, 1]);
    let mut r = RefCursor::new(b);
    let h = Pat0Header::deserialize(&mut r).ok().unwrap();
    assert_eq!(h, Pat0Header { frame_count: 20, base_number: 1, string_number: 2, cyclic: true });
    let mut b = Vec::new();
    word(&mut b, 0x10);
    word(&mut b, 0x20);
    let mut r = RefCursor::new(b);
    assert_eq!(U32Section::deserialize(&mut r, 2).ok().unwrap().offsets, vec![0x10, 0x20]);
    assert_eq!(&PAT0_MAGIC, b"PAT0");
}

#[test]
fn pat0_animation_data_is_not_read() {
    let mut b = Vec::new();
    b.extend_from_slice(&PAT0_MAGIC);
    let mut r = RefCursor::new(b);
    r.set_position(4);
    assert!(Pat0Subfile::deserialize(&mut r).is_err());
}

#[test]
fn animation_format_bits_read_back() {
    for f in [
        AnimationFormat::Fixed,
        AnimationFormat::Interpolated4,
        AnimationFormat::Interpolated6,
        AnimationFormat::Interpolated12,
        AnimationFormat::Linear1,
        AnimationFormat::Linear4,
        AnimationFormat::Invalid,
    ] {
        assert_eq!(AnimationFormat::from_bits(f.into_bits()), f);
    }
}

#[test]
fn pat0_with_readable_parts_is_unsupported() {
    let mut b = Vec::new();
    b.extend_from_slice(&PAT0_MAGIC);
    word(&mut b, 0x100);
    word(&mut b, 4);
    word(&mut b, 0);
    for _ in 0..6 {
        word(&mut b, 0);
    }
    word(&mut b, 60); // name offset
    assert_eq!(b.len(), 44);
    b.extend_from_slice(&[0; 16]);
    b.extend_from_slice(b"pat\0");
    // the index group starts at the name's terminating zero, at 63
    b.pop();
    let g = b.len() as u32;
    assert_eq!(g, 63);
    word(&mut b, 40);
    word(&mut b, 1);
    b.extend_from_slice(&[0xff, 0xff, 0, 0, 0, 1, 0, 1]);
    word(&mut b, 0);
    word(&mut b, 0);
    b.extend_from_slice(&[0; 8]);
    let name_at = g + 40 + 4;
    word(&mut b, name_at - g);
    word(&mut b, 0);
    word(&mut b, 3);
    b.extend_from_slice(b"tex");
    let mut r = RefCursor::new(b);
    r.set_position(4);
    assert!(matches!(Pat0Subfile::deserialize(&mut r), Err(EditorError::Unsupported { .. })));
}
