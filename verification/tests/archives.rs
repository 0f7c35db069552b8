use mktools::error::EditorError;
use mktools::format::arc::{self, NodeType, ARC_MAGIC};
use mktools::format::brres::{self, get_section_count, IndexGroup, SubfileHeader, SubfileType};
use mktools::format::encoding::Deserialize;
use mktools::node::defer::Deferred;
use mktools::node::node::{NodeContents, VirtualNodeKind};
use mktools::node::refs::VirtualRefCacheMap;
use mktools::shared::util::RefCursor;

fn be32(v: u32) -> [u8; 4] {
    v.to_be_bytes()
}

/// An archive with a root directory, a directory `d` and a file `f.bin` in it.
fn small_arc(file_data_offset: u32, file: &[u8]) -> Vec<u8> {
    let mut b = Vec::new();
    b.extend_from_slice(&ARC_MAGIC);
    b.extend_from_slice(&be32(0x20)); // node offset
    b.extend_from_slice(&be32(0)); // size
    b.extend_from_slice(&be32(0)); // file offset
    b.extend_from_slice(&[0; 16]);
    // root directory: type, name offset, parent, node count
    b.extend_from_slice(&[1, 0, 0, 0]);
    b.extend_from_slice(&be32(0));
    b.extend_from_slice(&be32(3));
    // directory `d`: its children end before node 3
    b.extend_from_slice(&[1, 0, 0, 1]);
    b.extend_from_slice(&be32(0));
    b.extend_from_slice(&be32(3));
    // file `f.bin`
    b.extend_from_slice(&[0, 0, 0, 3]);
    b.extend_from_slice(&be32(file_data_offset));
    b.extend_from_slice(&be32(file.len() as u32));
    // string pool at 0x20 + 3 * 12 = 0x44
    assert_eq!(b.len(), 0x44);
    b.extend_from_slice(b"\0d\0f.bin\0");
    while b.len() < 0x50 {
        b.push(0);
    }
    b.extend_from_slice(file);
    b
}

#[test]
fn arc_node_type_codes() {
    assert!(matches!(NodeType::try_from(0).ok(), Some(NodeType::File)));
    assert!(matches!(NodeType::try_from(1).ok(), Some(NodeType::Directory)));
    assert!(matches!(NodeType::try_from(2), Err(EditorError::Corrupted { .. })));
}

#[test]
fn arc_header_reads_offsets() {
    let bytes = small_arc(0x50, b"XYZW1234");
    let mut r = RefCursor::new(bytes);
    let h = arc::Header::deserialize(&mut r).ok().unwrap();
    assert_eq!(h.node_offset, 0x20);
    assert_eq!(h.reserved, [0, 0, 0, 0]);
    assert_eq!(r.position(), 32);
}

#[test]
fn arc_header_with_wrong_magic_is_incorrect_format() {
    let mut r = RefCursor::new(vec![0x55, 0xAA, 0x38, 0x2E, 0, 0, 0, 0]);
    assert!(matches!(arc::Header::deserialize(&mut r), Err(EditorError::IncorrectFormat { .. })));
}

#[test]
fn arc_tree_of_directories_and_files() {
    let bytes = small_arc(0x50, b"XYZW1234");
    let total = bytes.len();
    let mut r = RefCursor::new(bytes);
    let mut map = VirtualRefCacheMap::new();
    let root = arc::deserialize_virtual(&mut r, None, &mut map, "course.szs".to_string()).ok().unwrap();
    assert_eq!(root.into_inner(), 1);
    let root_node = map.get(root).unwrap();
    assert_eq!(root_node.label, "course.szs");
    assert!(root_node.parent.is_none());
    assert_eq!(root_node.kind, VirtualNodeKind::ArcDirectory { empty: false });
    let children = map.get_children(root).unwrap().clone();
    assert_eq!(children.len(), 1);
    let dir = map.get(children[0]).unwrap();
    assert_eq!(dir.label, "d");
    assert_eq!(dir.parent, Some(root));
    let files = map.get_children(children[0]).unwrap().clone();
    assert_eq!(files.len(), 1);
    let file = map.get(files[0]).unwrap();
    assert_eq!(file.label, "f.bin");
    assert_eq!(file.kind, VirtualNodeKind::Unknown);
    match map.get_inspectable(files[0]) {
        Some(NodeContents::Raw(raw)) => assert_eq!(raw.file_size(), total - 0x50),
        _ => panic!("expected raw contents"),
    }
}

#[test]
fn arc_that_contains_itself_is_corrupt() {
    let bytes = small_arc(0, b"");
    let mut r = RefCursor::new(bytes);
    let mut map = VirtualRefCacheMap::new();
    let res = arc::deserialize_virtual(&mut r, None, &mut map, "loop.arc".to_string());
    assert!(matches!(res, Err(EditorError::Corrupted { .. })));
}

#[test]
fn arc_root_must_be_a_directory() {
    let mut bytes = small_arc(0x50, b"XYZW");
    bytes[32] = 0;
    let mut r = RefCursor::new(bytes);
    let mut map = VirtualRefCacheMap::new();
    assert!(matches!(
        arc::deserialize_virtual(&mut r, None, &mut map, "x".to_string()),
        Err(EditorError::Corrupted { .. })
    ));
}

#[test]
fn section_counts_of_subfile_versions() {
    assert_eq!(get_section_count(SubfileType::Mdl0, 11).ok(), Some(14));
    assert_eq!(get_section_count(SubfileType::Mdl0, 8).ok(), Some(11));
    assert_eq!(get_section_count(SubfileType::Chr0, 5).ok(), Some(2));
    assert_eq!(get_section_count(SubfileType::Pat0, 4).ok(), Some(6));
    assert_eq!(get_section_count(SubfileType::Root, 0).ok(), Some(0));
    assert!(matches!(get_section_count(SubfileType::Chr0, 3), Err(EditorError::Unsupported { .. })));
    assert!(matches!(get_section_count(SubfileType::Mdl0, 9), Err(EditorError::Corrupted { .. })));
}

fn name(b: &mut Vec<u8>, s: &str) -> u32 {
    b.extend_from_slice(&be32(s.len() as u32));
    let at = b.len() as u32;
    b.extend_from_slice(s.as_bytes());
    while b.len() % 4 != 0 {
        b.push(0);
    }
    at
}

fn group(b: &mut Vec<u8>, entries: &[(u32, u32)]) {
    b.extend_from_slice(&be32(8 + 16 * (entries.len() as u32 + 1)));
    b.extend_from_slice(&be32(entries.len() as u32));
    b.extend_from_slice(&[0xff, 0xff, 0, 0, 0, 1, 0, 1]);
    b.extend_from_slice(&be32(0));
    b.extend_from_slice(&be32(0));
    for (name_pointer, data_pointer) in entries {
        b.extend_from_slice(&[0, 0, 0, 0, 0, 0, 0, 0]);
        b.extend_from_slice(&be32(*name_pointer));
        b.extend_from_slice(&be32(*data_pointer));
    }
}

/// A BRRES file with one directory `anims` holding one subfile `walk` of `subfile`.
fn small_brres(subfile: &[u8]) -> Vec<u8> {
    let mut b = Vec::new();
    b.extend_from_slice(b"bres");
    b.extend_from_slice(&[0xFE, 0xFF, 0, 0]);
    b.extend_from_slice(&be32(0));
    b.extend_from_slice(&[0, 0x10, 0, 1]);
    b.extend_from_slice(b"root");
    b.extend_from_slice(&be32(0));
    // root group at 0x18, directory group at 0x40, names at 0x68 on, subfile at 0x80
    group(&mut b, &[(0x6c - 0x18, 0x40 - 0x18)]);
    group(&mut b, &[(0x78 - 0x40, 0x80 - 0x40)]);
    assert_eq!(b.len(), 0x68);
    let dir_name = name(&mut b, "anims");
    assert_eq!(dir_name, 0x6c);
    let file_name = name(&mut b, "walk");
    assert_eq!(file_name, 0x78);
    assert_eq!(b.len(), 0x7c);
    b.extend_from_slice(&[0; 4]);
    b.extend_from_slice(subfile);
    b
}

#[test]
fn index_group_entries_and_names() {
    let bytes = small_brres(b"CHR0\0\0\0\0");
    let mut r = RefCursor::new(bytes);
    r.set_position(0x18);
    let g = IndexGroup::deserialize(&mut r).ok().unwrap();
    assert_eq!(g.group_start, 0x18);
    assert_eq!(g.header.number, 1);
    assert_eq!(g.entries.len(), 2);
    assert_eq!(g.get_entry_data_start(&g.entries[1]), 0x40);
    assert_eq!(g.get_entry_name(&mut r, &g.entries[1]).ok(), Some("anims".to_string()));
    // the name's length prefix is at 0x68, its five bytes follow
    assert_eq!(r.position(), 0x68 + 4 + 5);
    assert_eq!(g.get_entry_name(&mut r, &g.entries[0]).ok(), Some(String::new()));
    // a zero name pointer reads nothing
    assert_eq!(r.position(), 0x68 + 4 + 5);
}

#[test]
fn brres_header_rejects_little_endian() {
    let mut bytes = small_brres(b"CHR0");
    bytes[4] = 0xFF;
    bytes[5] = 0xFE;
    let mut r = RefCursor::new(bytes);
    assert!(matches!(brres::Header::deserialize(&mut r), Err(EditorError::Unsupported { .. })));
}

#[test]
fn brres_header_with_bad_byte_order_mark_is_corrupt() {
    let mut bytes = small_brres(b"CHR0");
    bytes[4] = 0x00;
    let mut r = RefCursor::new(bytes);
    assert!(matches!(brres::Header::deserialize(&mut r), Err(EditorError::Corrupted { .. })));
}

#[test]
fn brres_directories_are_parsed_on_evaluation() {
    let bytes = small_brres(b"CHR0\0\0\0\0");
    let mut r = RefCursor::new(bytes);
    let mut map = VirtualRefCacheMap::new();
    let id = brres::deserialize_virtual(&mut r, None, &mut map, "models.brres".to_string()).ok().unwrap();
    assert!(!map.get(id).unwrap().is_deferred());
    assert!(map.get_children(id).is_none());
    assert!(map.evaluate(id).is_ok());
    assert!(map.get(id).unwrap().is_deferred());
    let dirs = map.get_children(id).unwrap().clone();
    assert_eq!(dirs.len(), 1);
    let dir = map.get(dirs[0]).unwrap();
    assert_eq!(dir.label, "anims");
    assert_eq!(dir.kind, VirtualNodeKind::BrresDirectory);
    let files = map.get_children(dirs[0]).unwrap().clone();
    assert_eq!(files.len(), 1);
    let file = map.get(files[0]).unwrap();
    assert_eq!(file.label, "Unparsed format");
    assert_eq!(file.parent, Some(dirs[0]));
    assert!(matches!(map.get_inspectable(files[0]), Some(NodeContents::Raw(_))));
    // evaluating again changes nothing
    assert!(map.evaluate(id).is_ok());
    assert_eq!(map.get_children(id).unwrap().len(), 1);
}

#[test]
fn brres_skips_subfiles_of_other_formats() {
    let bytes = small_brres(b"TEX0\0\0\0\0");
    let mut r = RefCursor::new(bytes);
    let mut map = VirtualRefCacheMap::new();
    let id = brres::deserialize_virtual(&mut r, None, &mut map, "t.brres".to_string()).ok().unwrap();
    assert!(map.evaluate(id).is_ok());
    let dirs = map.get_children(id).unwrap().clone();
    assert_eq!(map.get_children(dirs[0]).unwrap().len(), 0);
}

#[test]
fn evaluating_a_missing_node_fails() {
    let mut map = VirtualRefCacheMap::new();
    let id = map.next_id();
    assert!(matches!(map.evaluate(id), Err(EditorError::InvalidInput { .. })));
}

#[test]
fn subfile_header_of_mdl0() {
    let mut b = Vec::new();
    b.extend_from_slice(b"MDL0");
    b.extend_from_slice(&be32(0x100));
    b.extend_from_slice(&be32(11));
    b.extend_from_slice(&(-8i32).to_be_bytes());
    for i in 0..14u32 {
        b.extend_from_slice(&be32(i * 4));
    }
    b.extend_from_slice(&be32(0x40));
    let mut r = RefCursor::new(b);
    r.set_position(4);
    let h = SubfileHeader::deserialize(&mut r, SubfileType::Mdl0).ok().unwrap();
    assert_eq!(h.header_start, 0);
    assert_eq!(h.subfile_version, 11);
    assert_eq!(h.brres_offset, -8);
    assert_eq!(h.offsets.len(), 14);
    assert_eq!(h.offsets[13], 52);
    assert_eq!(h.name_offset, 0x40);
    assert_eq!(h.get_section_start(2).ok(), Some(8));
    match h.get_section_start(14) {
        Err(EditorError::OutOfRange { source }) => {
            assert_eq!(source.requested, 14);
            assert_eq!(source.range_start, 0);
            assert_eq!(source.range_end, 14);
            assert_eq!(source.location, None);
        },
        _ => panic!("expected an out-of-range error"),
    }
    match Deferred::<u32>::evaluated(5).get() {
        Some(v) => assert_eq!(*v, 5),
        None => panic!("evaluated content is available"),
    }
}

#[test]
fn arc_with_wrong_magic_names_both_magics_and_adds_no_node() {
    let mut bytes = small_arc(0x50, b"XYZW");
    bytes[0..4].copy_from_slice(b"RARC");
    let mut r = RefCursor::new(bytes);
    let mut map = VirtualRefCacheMap::new();
    let parent = map.next_id();
    match arc::deserialize_virtual(&mut r, Some(parent), &mut map, "x".to_string()) {
        Err(EditorError::IncorrectFormat { source }) => {
            assert_eq!(source.expected_magic, ARC_MAGIC.to_vec());
            assert_eq!(source.found_magic, b"RARC".to_vec());
            assert_eq!(source.location, Some(4));
        },
        _ => panic!("expected an incorrect format"),
    }
    // no ID was handed out and no node was added
    assert_eq!(map.next_id().into_inner(), 2);
}

#[test]
fn arc_with_a_file_at_its_root_adds_no_node() {
    let mut bytes = small_arc(0x50, b"XYZW");
    bytes[32] = 0;
    let mut r = RefCursor::new(bytes);
    let mut map = VirtualRefCacheMap::new();
    assert!(matches!(
        arc::deserialize_virtual(&mut r, None, &mut map, "x".to_string()),
        Err(EditorError::Corrupted { .. })
    ));
    assert_eq!(map.next_id().into_inner(), 1);
}

#[test]
fn brres_with_wrong_magic_names_both_magics() {
    let mut r = RefCursor::new(b"RARC\xfe\xff\0\0".to_vec());
    let mut map = VirtualRefCacheMap::new();
    let file = brres::deserialize_virtual(&mut r, None, &mut map, "x".to_string()).ok().unwrap();
    match map.evaluate(file) {
        Err(EditorError::IncorrectFormat { source }) => {
            assert_eq!(source.expected_magic, b"bres".to_vec());
            assert_eq!(source.found_magic, b"RARC".to_vec());
            assert_eq!(source.location, Some(4));
        },
        _ => panic!("expected an incorrect format"),
    }
}
