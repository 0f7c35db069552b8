use mktools::error::EditorError;
use mktools::format::encoding::Deserialize;
use mktools::format::mdl0::bytecode::{Bytecode, BytecodeCommand, DefinitionOpCodeId, Weight};
use mktools::format::mdl0::gx::load_bp::ConstantAlpha;
use mktools::format::mdl0::materials::{
    AnisotropyFiltering, CullMode, MagnificationFilter, MaterialBuf, MaterialFlags, MaterialMode, MinificationFilter,
    TextureReference, UsedTextureMaps, WrapMode,
};
use mktools::format::mdl0::polygons::{BoneTable, BoneTableEntry, Polygon, PolygonModifier};
use mktools::format::mdl0::tevs::Tev;
use mktools::format::mdl0::tex_links::{TextureLink, TextureLinks};
use mktools::shared::util::RefCursor;

fn word(b: &mut Vec<u8>, v: u32) {
    b.extend_from_slice(&v.to_be_bytes());
}

fn bp(b: &mut Vec<u8>, address: u8, value: u32) {
    b.push(0x61);
    b.push(address);
    b.extend_from_slice(&value.to_be_bytes()[1..]);
}

#[test]
fn material_flag_bits() {
    let f = MaterialFlags::from_bits(0x8000_0001);
    assert!(f.xlu_material());
    assert!(f.dont_send_pixel_display());
    assert!(!f.dont_send_uv());
    assert_eq!(f.into_bits(), 0x8000_0001);
    let t = UsedTextureMaps::from_bits(0b101);
    assert!(t.tex0_used() && !t.tex1_used() && t.tex2_used());
}

#[test]
fn material_enums() {
    assert_eq!(CullMode::try_from(0).ok(), Some(CullMode::Off));
    assert_eq!(CullMode::try_from(3).ok(), Some(CullMode::All));
    assert!(matches!(CullMode::try_from(4), Err(EditorError::Corrupted { .. })));
    assert_eq!(WrapMode::try_from(2).ok(), Some(WrapMode::Mirror));
    assert!(matches!(WrapMode::try_from(3), Err(EditorError::Corrupted { .. })));
    assert_eq!(MinificationFilter::try_from(5).ok(), Some(MinificationFilter::LinearMipmapLinear));
    assert_eq!(MagnificationFilter::try_from(1).ok(), Some(MagnificationFilter::Linear));
    assert_eq!(AnisotropyFiltering::try_from(2).ok(), Some(AnisotropyFiltering::Four));
}

fn material_mode_bytes() -> Vec<u8> {
    let mut b = Vec::new();
    bp(&mut b, 0xf3, 0x3f_0000);
    bp(&mut b, 0x40, 0x17);
    bp(&mut b, 0xfe, 0xffff);
    bp(&mut b, 0x41, 0x34a0);
    bp(&mut b, 0x42, 0x80_01ff);
    b.extend_from_slice(&[0; 7]);
    b
}

#[test]
fn material_mode_is_five_register_writes() {
    let mut r = RefCursor::new(material_mode_bytes());
    let m = MaterialMode::deserialize(&mut r).ok().unwrap();
    assert_eq!(m.write_mask, 0xffff);
    assert_eq!(m.blend_mode.into_bits(), 0x34a0);
    assert_eq!(m.constant_alpha, ConstantAlpha(0x80_01ff));
    assert!(m.constant_alpha.enable());
    assert_eq!(m.constant_alpha.value(), 0x80);
    assert_eq!(m.depth_test.into_bits(), 0x17);
    assert_eq!(r.position(), 32);
}

#[test]
fn material_mode_out_of_order_is_corrupt() {
    let mut b = material_mode_bytes();
    b.swap(1, 6); // alpha function and depth test registers change places
    let mut r = RefCursor::new(b);
    assert!(matches!(MaterialMode::deserialize(&mut r), Err(EditorError::Corrupted { .. })));
    let mut b = material_mode_bytes();
    b[0] = 0x08;
    let mut r = RefCursor::new(b);
    assert!(matches!(MaterialMode::deserialize(&mut r), Err(EditorError::Corrupted { .. })));
}

#[test]
fn texture_reference_fields() {
    let mut b = Vec::new();
    word(&mut b, 0x100); // texture id
    word(&mut b, 0xFFFF_FFFF); // palette id
    word(&mut b, 0);
    word(&mut b, 0);
    word(&mut b, 3); // texture data id
    word(&mut b, 4); // palette data id
    word(&mut b, 1); // u repeat
    word(&mut b, 2); // v mirror
    word(&mut b, 4); // min filter
    word(&mut b, 0); // mag filter
    word(&mut b, 0x3f80_0000); // lod bias 1.0
    word(&mut b, 1); // anisotropy two
    b.extend_from_slice(&[1, 0, 0, 0]);
    let mut r = RefCursor::new(b);
    let t = TextureReference::deserialize(&mut r).ok().unwrap();
    assert_eq!(t.texture_id, 0x100);
    assert_eq!(t.palette_id, -1);
    assert_eq!(t.texture_data_id, 3);
    assert_eq!(t.palette_data_id, 4);
    assert_eq!(t.uwrap, WrapMode::Repeat);
    assert_eq!(t.vwrap, WrapMode::Mirror);
    assert_eq!(t.min_filter, MinificationFilter::NearestMipmapLinear);
    assert_eq!(t.mag_filter, MagnificationFilter::Nearest);
    assert_eq!(f32::from_bits(t.lod_bias), 1.0);
    assert_eq!(t.max_anisotropy_filtering, AnisotropyFiltering::Two);
    assert_eq!(t.clamp_bias, 1);
    assert_eq!(t.texel_interpolate, 0);
    assert_eq!(r.position(), 52);
}

#[test]
fn texture_reference_with_bad_wrap_is_corrupt() {
    let mut b = vec![0u8; 52];
    b[27] = 3;
    let mut r = RefCursor::new(b);
    assert!(matches!(TextureReference::deserialize(&mut r), Err(EditorError::Corrupted { .. })));
}

#[test]
fn polygon_modifiers() {
    assert_eq!(PolygonModifier::try_from(0).ok(), Some(PolygonModifier::Unmodified));
    assert_eq!(PolygonModifier::try_from(2).ok(), Some(PolygonModifier::Invisible));
    assert!(matches!(PolygonModifier::try_from(3), Err(EditorError::Corrupted { .. })));
}

#[test]
fn bone_table_entries() {
    let mut b = Vec::new();
    word(&mut b, 2);
    b.extend_from_slice(&[0x00, 0x01, 0xFF, 0xFF, 0x00, 0x02, 0x00, 0x03]);
    let mut r = RefCursor::new(b);
    let t = BoneTable::deserialize(&mut r).ok().unwrap();
    assert_eq!(t.entries, vec![
        BoneTableEntry { bone_id1: 1, bone_id2: -1 },
        BoneTableEntry { bone_id1: 2, bone_id2: 3 },
    ]);
    assert_eq!(r.position(), 12);
    let mut b = Vec::new();
    word(&mut b, 2);
    b.extend_from_slice(&[0, 1, 0, 1]);
    let mut r = RefCursor::new(b);
    assert!(matches!(BoneTable::deserialize(&mut r), Err(EditorError::IoError { .. })));
}

#[test]
fn texture_links() {
    let mut b = Vec::new();
    word(&mut b, 2);
    word(&mut b, 0x10);
    word(&mut b, 0x20);
    word(&mut b, 0x30);
    word(&mut b, 0x40);
    let mut r = RefCursor::new(b);
    let t = TextureLinks::deserialize(&mut r).ok().unwrap();
    assert_eq!(t.links, vec![
        TextureLink { offset1: 0x10, offset2: 0x20 },
        TextureLink { offset1: 0x30, offset2: 0x40 },
    ]);
    assert_eq!(r.position(), 20);
}

#[test]
fn definition_opcodes() {
    assert_eq!(DefinitionOpCodeId::from_repr(1), Some(DefinitionOpCodeId::End));
    assert_eq!(DefinitionOpCodeId::from_repr(4), Some(DefinitionOpCodeId::Draw));
    assert_eq!(DefinitionOpCodeId::from_repr(7), None);
    let mut r = RefCursor::new(vec![9]);
    assert!(matches!(Bytecode::read_opcode_id(&mut r), Err(EditorError::Corrupted { .. })));
}

#[test]
fn bytecode_until_end() {
    let mut b = vec![
        0x00, // nop
        0x02, 0x00, 0x01, 0x00, 0x02, // map node
        0x04, 0x00, 0x03, 0x00, 0x04, 0x00, 0x05, 0x06, // draw
        0x03, 0x00, 0x07, 0x01, 0x00, 0x09, // weights, one entry
    ];
    b.extend_from_slice(&0.5f32.to_bits().to_be_bytes());
    b.extend_from_slice(&[0x06, 0x00, 0x0a, 0x00, 0x0b, 0x01, 0xEE]);
    let mut r = RefCursor::new(b);
    let code = Bytecode::deserialize(&mut r).ok().unwrap();
    // reading stops just after the end opcode, before the trailing byte
    assert_eq!(r.position(), 30);
    assert_eq!(code.commands.len(), 4);
    match &code.commands[0] {
        BytecodeCommand::MapNode(m) => assert_eq!((m.bone_index, m.matrix_index), (1, 2)),
        _ => panic!("expected a node mapping"),
    }
    match &code.commands[1] {
        BytecodeCommand::Draw(d) => {
            assert_eq!((d.material_index, d.object_index, d.bone_index, d.z_index), (3, 4, 5, 6))
        },
        _ => panic!("expected a draw"),
    }
    match &code.commands[2] {
        BytecodeCommand::Weights(w) => {
            assert_eq!(w.weight_id, 7);
            assert_eq!(w.weights, vec![Weight { bone_id: 9, weight: 0.5f32.to_bits() }]);
        },
        _ => panic!("expected weights"),
    }
    match &code.commands[3] {
        BytecodeCommand::DuplicateMatrix(d) => assert_eq!((d.dest, d.src), (10, 11)),
        _ => panic!("expected a matrix copy"),
    }
}

#[test]
fn bytecode_without_end_fails() {
    let mut r = RefCursor::new(vec![0x02, 0x00, 0x01, 0x00, 0x02]);
    assert!(matches!(Bytecode::deserialize(&mut r), Err(EditorError::IoError { .. })));
    let mut r = RefCursor::new(vec![0x00, 0x08, 0x01]);
    assert!(matches!(Bytecode::deserialize(&mut r), Err(EditorError::Corrupted { .. })));
}

#[test]
fn truncated_material_reports_its_first_bad_field() {
    // 28 bytes of header, then a cull mode of 9, and the input ends soon after.
    let mut b = vec![0u8; 24];
    word(&mut b, 9);
    b.extend_from_slice(&[0; 8]);
    let mut r = RefCursor::new(b);
    assert!(matches!(MaterialBuf::deserialize(&mut r), Err(EditorError::Corrupted { .. })));
    // A valid cull mode with the input ending inside the material is the end of the input.
    let mut b = vec![0u8; 24];
    word(&mut b, 2);
    b.extend_from_slice(&[0; 8]);
    let mut r = RefCursor::new(b);
    assert!(matches!(MaterialBuf::deserialize(&mut r), Err(EditorError::IoError { .. })));
    // An indirect method of 8 comes before the end of the input.
    let mut b = vec![0u8; 24];
    word(&mut b, 0);
    b.extend_from_slice(&[0, 0, 0, 0, 0, 8, 0, 0]);
    let mut r = RefCursor::new(b);
    assert!(matches!(MaterialBuf::deserialize(&mut r), Err(EditorError::Corrupted { .. })));
}

#[test]
fn tev_errors() {
    // A TEV whose command is a texture read register write is not supported.
    let mut b = vec![0u8; 32];
    bp(&mut b, 0x28, 0);
    let mut r = RefCursor::new(b);
    assert!(matches!(Tev::deserialize(&mut r), Err(EditorError::Unsupported { .. })));
    // One whose command is no `LoadBP` is corrupt.
    let mut b = vec![0u8; 32];
    b.extend_from_slice(&[0x10, 0, 0, 0, 0]);
    let mut r = RefCursor::new(b);
    assert!(matches!(Tev::deserialize(&mut r), Err(EditorError::Corrupted { .. })));
    // One cut off in its texture scales ends the input.
    let mut r = RefCursor::new(vec![0u8; 20]);
    assert!(matches!(Tev::deserialize(&mut r), Err(EditorError::IoError { .. })));
}

#[test]
fn polygon_with_bad_modifier_is_corrupt() {
    let mut b = vec![0u8; 52];
    word(&mut b, 5);
    let mut r = RefCursor::new(b);
    assert!(matches!(Polygon::deserialize(&mut r), Err(EditorError::Corrupted { .. })));
    let mut r = RefCursor::new(vec![0u8; 40]);
    assert!(matches!(Polygon::deserialize(&mut r), Err(EditorError::IoError { .. })));
}

#[test]
fn tev_ends_after_its_command() {
    let mut b = vec![0u8; 32];
    bp(&mut b, 0x40, 0x17);
    b.extend_from_slice(&[0xAA; 4]);
    let mut r = RefCursor::new(b);
    let t = Tev::deserialize(&mut r).ok().unwrap();
    assert_eq!(t.bytecode.commands.len(), 1);
    assert_eq!(r.position(), 37);
}
