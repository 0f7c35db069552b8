use mktools::error::EditorError;
use mktools::format::encoding::Deserialize;
use mktools::format::mdl0::gx::draw::{DirectPosition, DrawOpCode, PositionData};
use mktools::format::mdl0::gx::load_bp::{AlphaCompare, BlendFactor, BlendMode, LoadBpOpCode, LogicOp, RasConstant};
use mktools::format::mdl0::gx::load_xf::XfProjectionType;
use mktools::format::mdl0::gx::load_cp::{CpVatA, CpVcdLo, LoadCpOpCode, VectorStorage};
use mktools::format::mdl0::gx::load_indexed::IndexedLoad;
use mktools::format::mdl0::gx::call::CallDisplayList;
use mktools::format::mdl0::gx::{GxBytecode, GxOpCode, GxOpCodeId};
use mktools::format::mdl0::polygons::VertexDeclaration;
use mktools::format::mdl0::util::{Scalar, VertexFormat};
use mktools::shared::util::RefCursor;

fn cursor(bytes: &[u8]) -> RefCursor {
    RefCursor::new(bytes.to_vec())
}

fn declaration(vcd_lo: u32, vat_a: u32) -> VertexDeclaration {
    let mut b = vec![0x08, 0x50];
    b.extend_from_slice(&vcd_lo.to_be_bytes());
    b.extend_from_slice(&[0x08, 0x70]);
    b.extend_from_slice(&vat_a.to_be_bytes());
    let end = b.len() as u64;
    let mut r = RefCursor::new(b);
    let code = GxBytecode::deserialize_vertex_declaration(&mut r, end).ok().unwrap();
    VertexDeclaration::from_bytecode(&code)
}

#[test]
fn opcode_ids() {
    assert_eq!(GxOpCodeId::try_from(0x00).ok(), Some(GxOpCodeId::Nop));
    assert_eq!(GxOpCodeId::try_from(0x61).ok(), Some(GxOpCodeId::LoadBp));
    assert_eq!(GxOpCodeId::try_from(0x98).ok(), Some(GxOpCodeId::DrawTriangleStrip));
    assert_eq!(GxOpCodeId::try_from(0xb8).ok(), Some(GxOpCodeId::DrawPoints));
    assert!(matches!(GxOpCodeId::try_from(0x01), Err(EditorError::Corrupted { .. })));
    assert!(matches!(GxOpCodeId::try_from(0xff), Err(EditorError::Corrupted { .. })));
}

#[test]
fn declaration_keeps_last_register_loads() {
    let b = [
        0x08, 0x50, 0, 0, 0x02, 0x00, // VcdLo: position direct
        0x00, // nop
        0x08, 0x70, 0, 0, 0, 0x01, // VatA: xyz
        0x08, 0x50, 0, 0, 0x06, 0x00, // VcdLo again: position index16
    ];
    let mut r = cursor(&b);
    let code = GxBytecode::deserialize_vertex_declaration(&mut r, b.len() as u64).ok().unwrap();
    assert_eq!(r.position(), b.len() as u64);
    // the no-op is skipped
    assert_eq!(code.commands.len(), 3);
    assert!(matches!(code.commands[1], GxOpCode::LoadCp(LoadCpOpCode::VatA(CpVatA(1)))));
    let d = VertexDeclaration::from_bytecode(&code);
    assert_eq!(d.vcd_lo, CpVcdLo(0x600));
    assert_eq!(d.vat_a, CpVatA(1));
    assert_eq!(d.vcd_lo.pos_storage(), VectorStorage::Index16);
    assert!(d.vat_a.pos_extended());
    assert_eq!(d.vcd_hi.into_bits(), 0);
}

#[test]
fn declaration_stream_refuses_draw_commands() {
    let b = [0x90, 0x00, 0x00];
    let mut r = cursor(&b);
    assert!(GxBytecode::deserialize_vertex_declaration(&mut r, 3).is_err());
}

#[test]
fn declaration_stream_must_end_at_section_end() {
    let b = [0x08, 0x50, 0, 0, 0, 0, 0x00];
    let mut r = cursor(&b);
    assert!(GxBytecode::deserialize_vertex_declaration(&mut r, 5).is_err());
}

#[test]
fn draw_with_indexed_positions() {
    let d = declaration(0x600, 0);
    let b = [0x90, 0x00, 0x02, 0x00, 0x05, 0x01, 0x00];
    let mut r = cursor(&b);
    let code = GxBytecode::deserialize_vertex_data(&mut r, &d, b.len() as u64).ok().unwrap();
    assert_eq!(r.position(), b.len() as u64);
    assert_eq!(code.commands.len(), 1);
    match &code.commands[0] {
        GxOpCode::DrawTriangles(draw) => {
            assert_eq!(draw.vertices.len(), 2);
            assert!(matches!(draw.vertices[0].position, PositionData::Index16(5)));
            assert!(matches!(draw.vertices[1].position, PositionData::Index16(256)));
            assert!(draw.vertices[0].pm.is_none());
        },
        _ => panic!("expected a triangle list"),
    }
}

#[test]
fn draw_with_direct_positions() {
    // position direct; vat: xyz, int16 (code 3 in bits 1..4), divisor 8 in bits 4..9
    let d = declaration(0x200, 0x1 | (3 << 1) | (8 << 4));
    assert_eq!(d.vat_a.pos_format(), VertexFormat::Int16);
    assert_eq!(d.vat_a.pos_divisor(), 8);
    let b = [0x00, 0x01, 0x01, 0x00, 0xFF, 0x00, 0x00, 0x80];
    let mut r = cursor(&b);
    let draw = DrawOpCode::deserialize(&mut r, &d).ok().unwrap();
    assert_eq!(r.position(), 8);
    match &draw.vertices[0].position {
        PositionData::Direct(DirectPosition::Xyz(c)) => {
            assert_eq!(c, &vec![
                Scalar::Fixed { raw: 256, shift: 8 },
                Scalar::Fixed { raw: -256, shift: 8 },
                Scalar::Fixed { raw: 128, shift: 8 },
            ]);
        },
        _ => panic!("expected a direct position"),
    }
}

#[test]
fn draw_with_missing_vertices_fails() {
    let d = declaration(0x600, 0);
    let b = [0x00, 0x03, 0x00, 0x05];
    let mut r = cursor(&b);
    assert!(matches!(DrawOpCode::deserialize(&mut r, &d), Err(EditorError::IoError { .. })));
}

#[test]
fn vertex_data_with_indexed_load_and_call() {
    let d = declaration(0, 0);
    let b = [
        0x20, 0x10, 0x02, 0x00, 0x03, // indexed position matrix
        0x40, 0, 0, 0, 0x20, 0, 0, 0, 0x40, // call
        0x48, // invalidate vertex cache
    ];
    let mut r = cursor(&b);
    let code = GxBytecode::deserialize_vertex_data(&mut r, &d, b.len() as u64).ok().unwrap();
    assert_eq!(code.commands.len(), 3);
    match &code.commands[0] {
        GxOpCode::LoadIndexedPosition(l) => {
            assert_eq!(*l, IndexedLoad(0x1002_0003));
            assert_eq!(l.index(), 3);
            assert_eq!(l.address(), 2);
            assert_eq!(l.transfer_count_one(), 1);
        },
        _ => panic!("expected an indexed load"),
    }
    assert!(matches!(code.commands[1], GxOpCode::Call(CallDisplayList { address: 0x20, size: 0x40 })));
    assert!(matches!(code.commands[2], GxOpCode::InvalidateVertexCache));
}

#[test]
fn tev_data_is_one_register_write() {
    let b = [0x61, 0x41, 0x00, 0x00, 0x01];
    let mut r = cursor(&b);
    let code = GxBytecode::deserialize_tev_data(&mut r).ok().unwrap();
    assert_eq!(code.commands.len(), 1);
    assert!(matches!(code.commands[0], GxOpCode::LoadBp(LoadBpOpCode::BlendMode(BlendMode(1)))));
    let mut r = cursor(&[0x08, 0x50, 0, 0, 0, 0]);
    assert!(matches!(GxBytecode::deserialize_tev_data(&mut r), Err(EditorError::Corrupted { .. })));
}

#[test]
fn register_writes() {
    let mut r = cursor(&[0x40, 0x00, 0x00, 0x17]);
    let op = LoadBpOpCode::deserialize(&mut r).ok().unwrap();
    assert!(matches!(op, LoadBpOpCode::DepthTest(_)));
    let mut r = cursor(&[0xc2, 0x00, 0x00, 0x00]);
    assert!(matches!(
        LoadBpOpCode::deserialize(&mut r).ok(),
        Some(LoadBpOpCode::ColorLayerBlend { layer: 0xc2, .. })
    ));
    let mut r = cursor(&[0xfe, 0x00, 0xff, 0xff]);
    assert!(matches!(LoadBpOpCode::deserialize(&mut r).ok(), Some(LoadBpOpCode::WriteMask(0xffff))));
}

#[test]
fn texture_read_registers_are_unsupported() {
    let mut r = cursor(&[0x28, 0x00, 0x00, 0x00]);
    assert!(matches!(LoadBpOpCode::deserialize(&mut r), Err(EditorError::Unsupported { .. })));
    let mut r = cursor(&[0x01, 0x00, 0x00, 0x00]);
    assert!(matches!(LoadBpOpCode::deserialize(&mut r), Err(EditorError::Corrupted { .. })));
    let mut r = cursor(&[0x40, 0x00]);
    assert!(matches!(LoadBpOpCode::deserialize(&mut r), Err(EditorError::IoError { .. })));
}

#[test]
fn blend_mode_fields() {
    // blend on, update color, src factor 4, dst factor 5, logic op 3
    let word = 0x1 | (1 << 3) | (5 << 5) | (4 << 8) | (3 << 12);
    let m = BlendMode::from_bits(word);
    assert!(m.enable_blend());
    assert!(!m.enable_logic());
    assert!(m.update_color());
    assert!(!m.update_alpha());
    assert_eq!(m.dst_factor(), BlendFactor::from_bits(5));
    assert_eq!(m.src_factor(), BlendFactor::from_bits(4));
    assert_eq!(m.logic_op(), LogicOp::from_bits(3));
    assert_eq!(m.into_bits(), word);
}

#[test]
fn command_processor_register_loads() {
    let mut r = cursor(&[0x80, 0, 0, 0, 9]);
    assert!(matches!(LoadCpOpCode::deserialize(&mut r).ok(), Some(LoadCpOpCode::VatB(_))));
    let mut r = cursor(&[0x30, 0, 0, 0, 9]);
    assert!(matches!(LoadCpOpCode::deserialize(&mut r), Err(EditorError::Corrupted { .. })));
    assert_eq!(VectorStorage::from_bits(2), VectorStorage::Index8);
    assert_eq!(VectorStorage::Index16.into_bits(), 3);
}

#[test]
fn register_enum_codes_read_back() {
    for v in 0..20u32 {
        let r = RasConstant::from_bits(v);
        assert_eq!(RasConstant::from_bits(r.into_bits()), r);
        let l = LogicOp::from_bits(v);
        assert_eq!(LogicOp::from_bits(l.into_bits()), l);
        let f = BlendFactor::from_bits(v);
        assert_eq!(BlendFactor::from_bits(f.into_bits()), f);
        let a = AlphaCompare::from_bits(v);
        assert_eq!(AlphaCompare::from_bits(a.into_bits()), a);
        let x = XfProjectionType::from_bits(v);
        assert_eq!(XfProjectionType::from_bits(x.into_bits()), x);
    }
    assert_eq!(RasConstant::from_bits(5), RasConstant::AlphaBump);
    assert_eq!(RasConstant::from_bits(3), RasConstant::Invalid);
    assert_eq!(RasConstant::Invalid.into_bits(), 8);
}
