use mktools::error::EditorError;
use mktools::format::brres;
use mktools::format::mdl0::tex_links::TextureLink;
use mktools::node::node::{NodeContents, VirtualNodeKind};
use mktools::node::refs::VirtualRefCacheMap;
use mktools::shared::util::RefCursor;

fn be32(v: u32) -> [u8; 4] {
    v.to_be_bytes()
}

fn put_name(b: &mut Vec<u8>, s: &str) {
    b.extend_from_slice(&be32(s.len() as u32));
    b.extend_from_slice(s.as_bytes());
    while b.len() % 4 != 0 {
        b.push(0);
    }
}

fn group(b: &mut Vec<u8>, entries: &[(u32, u32)]) {
    b.extend_from_slice(&be32(8 + 16 * (entries.len() as u32 + 1)));
    b.extend_from_slice(&be32(entries.len() as u32));
    b.extend_from_slice(&[0xff, 0xff, 0, 0, 0, 1, 0, 1]);
    b.extend_from_slice(&be32(0));
    b.extend_from_slice(&be32(0));
    for (name_pointer, data_pointer) in entries {
        b.extend_from_slice(&[0, 0, 0, 0, 0, 0, 0, 0]);
        b.extend_from_slice(&be32(*name_pointer));
        b.extend_from_slice(&be32(*data_pointer));
    }
}

/// An MDL0 model (version `version`) whose only section is one texture link record
/// named `tex_a`, as it stands at offset 0x84 of a file.
fn model(version: u32) -> Vec<u8> {
    let mut b = Vec::new();
    b.extend_from_slice(b"MDL0");
    b.extend_from_slice(&be32(0xE8));
    b.extend_from_slice(&be32(version));
    b.extend_from_slice(&(-0x84i32).to_be_bytes());
    for i in 0..14 {
        b.extend_from_slice(&be32(if i == 11 { 0xA8 } else { 0 }));
    }
    b.extend_from_slice(&be32(0));
    assert_eq!(b.len(), 0x4C);
    // model header
    b.extend_from_slice(&be32(0x40));
    b.extend_from_slice(&(-0x4Ci32).to_be_bytes());
    b.extend_from_slice(&[0; 56]);
    // bone links: none
    b.extend_from_slice(&be32(0));
    // index group of the model: no entries
    group(&mut b, &[]);
    assert_eq!(b.len(), 0xA8);
    // texture links section
    group(&mut b, &[(0xD4 - 0xA8, 0xDC - 0xA8)]);
    assert_eq!(b.len(), 0xD0);
    put_name(&mut b, "tex_a");
    assert_eq!(b.len(), 0xDC);
    b.extend_from_slice(&be32(1));
    b.extend_from_slice(&be32(0x10));
    b.extend_from_slice(&be32(0x20));
    b
}

/// A BRRES file with one directory `3DModels(NW4R)` holding the model `course`.
fn brres_with(subfile: &[u8]) -> Vec<u8> {
    let mut b = Vec::new();
    b.extend_from_slice(b"bres");
    b.extend_from_slice(&[0xFE, 0xFF, 0, 0]);
    b.extend_from_slice(&be32(0));
    b.extend_from_slice(&[0, 0x10, 0, 1]);
    b.extend_from_slice(b"root");
    b.extend_from_slice(&be32(0));
    // root group at 0x18, directory group at 0x40, names from 0x68, subfile at 0x84
    group(&mut b, &[(0x6c - 0x18, 0x40 - 0x18)]);
    group(&mut b, &[(0x80 - 0x40, 0x84 - 0x40)]);
    assert_eq!(b.len(), 0x68);
    put_name(&mut b, "3DModels(NW4R)");
    assert_eq!(b.len(), 0x7C);
    put_name(&mut b, "cour");
    assert_eq!(b.len(), 0x84);
    b.extend_from_slice(subfile);
    b
}

#[test]
fn model_sections_are_read_when_evaluated() {
    let mut r = RefCursor::new(brres_with(&model(11)));
    let mut map = VirtualRefCacheMap::new();
    let file = brres::deserialize_virtual(&mut r, None, &mut map, "course.brres".to_string()).ok().unwrap();
    assert!(map.evaluate(file).is_ok());
    let dirs = map.get_children(file).unwrap().clone();
    assert_eq!(dirs.len(), 1);
    assert_eq!(map.get(dirs[0]).unwrap().label, "3DModels(NW4R)");
    let models = map.get_children(dirs[0]).unwrap().clone();
    assert_eq!(models.len(), 1);
    let m = map.get(models[0]).unwrap();
    assert_eq!(m.label, "cour");
    assert_eq!(m.kind, VirtualNodeKind::BrresDirectory);
    assert_eq!(m.parent, Some(dirs[0]));
    // one node per section that the model has, not yet read
    let sections = map.get_children(models[0]).unwrap().clone();
    assert_eq!(sections.len(), 1);
    let sec = map.get(sections[0]).unwrap();
    assert_eq!(sec.label, "Texture links");
    assert_eq!(sec.parent, Some(models[0]));
    assert!(!sec.is_deferred());
    // reading the section makes a node per entry
    assert!(map.evaluate(sections[0]).is_ok());
    let entries = map.get_children(sections[0]).unwrap().clone();
    assert_eq!(entries.len(), 1);
    let e = map.get(entries[0]).unwrap();
    assert_eq!(e.label, "tex_a");
    assert_eq!(e.kind, VirtualNodeKind::TextureLinks);
    assert!(!e.kind.is_expandable());
    match map.get_inspectable(entries[0]) {
        Some(NodeContents::TextureLinks(t)) => {
            assert_eq!(t.links, vec![TextureLink { offset1: 0x10, offset2: 0x20 }]);
        },
        _ => panic!("expected texture links"),
    }
}

#[test]
fn models_of_other_versions_are_unsupported() {
    let bytes = brres_with(&model(8));
    let mut r = RefCursor::new(bytes.clone());
    r.set_position(0x88);
    let mut map = VirtualRefCacheMap::new();
    let parent = map.next_id();
    assert!(matches!(
        mktools::format::mdl0::deserialize_virtual(&mut r, parent, &mut map, "m".to_string()),
        Err(EditorError::Unsupported { .. })
    ));
    let mut r = RefCursor::new(bytes);
    let mut map = VirtualRefCacheMap::new();
    let file = brres::deserialize_virtual(&mut r, None, &mut map, "course.brres".to_string()).ok().unwrap();
    assert!(matches!(map.evaluate(file), Err(EditorError::Unsupported { .. })));
    // a failed evaluation leaves the node as it was
    assert!(!map.get(file).unwrap().is_deferred());
}

#[test]
fn model_node_direct() {
    let bytes = brres_with(&model(11));
    let mut r = RefCursor::new(bytes);
    r.set_position(0x88);
    let mut map = VirtualRefCacheMap::new();
    let parent = map.next_id();
    let id = mktools::format::mdl0::deserialize_virtual(&mut r, parent, &mut map, "m".to_string()).ok().unwrap();
    assert_eq!(id.into_inner(), 2);
    let node = map.get(id).unwrap();
    assert_eq!(node.label, "m");
    assert_eq!(node.parent, Some(parent));
    assert!(node.kind.is_expandable());
    assert_eq!(map.get_children(id).unwrap().len(), 1);
}

#[test]
fn brres_with_a_directory_past_the_end_fails() {
    let mut bytes = brres_with(&model(11));
    // the data pointer of the directory entry of the root group
    let at = 0x18 + 8 + 16 + 12;
    bytes[at..at + 4].copy_from_slice(&be32(0x1000));
    let mut r = RefCursor::new(bytes);
    let mut map = VirtualRefCacheMap::new();
    let file = brres::deserialize_virtual(&mut r, None, &mut map, "course.brres".to_string()).ok().unwrap();
    assert!(matches!(map.evaluate(file), Err(EditorError::IoError { .. })));
    assert!(!map.get(file).unwrap().is_deferred());
    // the parse of the node was used up by the failed evaluation
    assert!(matches!(map.evaluate(file), Err(EditorError::InvalidInput { .. })));
}

#[test]
fn model_section_with_entries_past_the_end_fails() {
    let mut bytes = brres_with(&model(11));
    // the entry count of the texture links section group (at 0x84 + 0xA8)
    let at = 0x84 + 0xA8 + 4;
    bytes[at..at + 4].copy_from_slice(&be32(50));
    let mut r = RefCursor::new(bytes);
    let mut map = VirtualRefCacheMap::new();
    let file = brres::deserialize_virtual(&mut r, None, &mut map, "course.brres".to_string()).ok().unwrap();
    assert!(map.evaluate(file).is_ok());
    let dirs = map.get_children(file).unwrap().clone();
    let models = map.get_children(dirs[0]).unwrap().clone();
    let sections = map.get_children(models[0]).unwrap().clone();
    assert!(matches!(map.evaluate(sections[0]), Err(EditorError::IoError { .. })));
    assert!(!map.get(sections[0]).unwrap().is_deferred());
}

#[test]
fn model_sections_get_the_next_ids_and_reading_stops_after_the_index_group() {
    let bytes = brres_with(&model(11));
    let mut r = RefCursor::new(bytes);
    r.set_position(0x88);
    let mut map = VirtualRefCacheMap::new();
    let parent = map.next_id();
    let id = mktools::format::mdl0::deserialize_virtual(&mut r, parent, &mut map, "m".to_string()).ok().unwrap();
    assert_eq!(id.into_inner(), 2);
    let sections = map.get_children(id).unwrap().clone();
    assert_eq!(sections.len(), 1);
    assert_eq!(sections[0].into_inner(), 3);
    // the model's own index group ends 0xA8 bytes after its start
    assert_eq!(r.position(), 0x84 + 0xA8);
    // no other node was added
    assert_eq!(map.next_id().into_inner(), 4);
}

#[test]
fn models_of_other_versions_leave_the_map_unchanged() {
    let bytes = brres_with(&model(8));
    let mut r = RefCursor::new(bytes);
    r.set_position(0x88);
    let mut map = VirtualRefCacheMap::new();
    let parent = map.next_id();
    assert!(mktools::format::mdl0::deserialize_virtual(&mut r, parent, &mut map, "m".to_string()).is_err());
    assert_eq!(map.next_id().into_inner(), 2);
}
