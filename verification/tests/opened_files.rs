use mktools::error::EditorError;
use mktools::format::arc::ARC_MAGIC;
use mktools::format::brres::BRRES_MAGIC;
use mktools::node::node::VirtualNodeKind;
use mktools::node::refs::VirtualRefCacheMap;
use mktools::node::root::{deserialize_maybe_compressed, YAZ0_MAGIC};
use mktools::shared::util::RefCursor;

/// An archive whose root directory holds one file, `a`, with the bytes `data`.
fn one_file_arc(data: &[u8]) -> Vec<u8> {
    let mut b = Vec::new();
    b.extend_from_slice(&ARC_MAGIC);
    b.extend_from_slice(&0x20u32.to_be_bytes());
    b.extend_from_slice(&[0; 24]);
    // root directory: node count 2
    b.extend_from_slice(&[1, 0, 0, 0]);
    b.extend_from_slice(&0u32.to_be_bytes());
    b.extend_from_slice(&2u32.to_be_bytes());
    // file `a`, data at 0x40
    b.extend_from_slice(&[0, 0, 0, 1]);
    b.extend_from_slice(&0x40u32.to_be_bytes());
    b.extend_from_slice(&(data.len() as u32).to_be_bytes());
    // string pool at 0x38
    b.extend_from_slice(b"\0a\0");
    while b.len() < 0x40 {
        b.push(0);
    }
    b.extend_from_slice(data);
    b
}

#[test]
fn yaz0_files_are_unsupported() {
    let mut bytes = YAZ0_MAGIC.to_vec();
    bytes.extend_from_slice(&[0; 12]);
    let mut map = VirtualRefCacheMap::new();
    let r = deserialize_maybe_compressed(RefCursor::new(bytes), &mut map, "course.szs".to_string());
    assert!(matches!(r, Err(EditorError::Unsupported { .. })));
    assert_eq!(map.next_id().into_inner(), 1);
}

#[test]
fn brres_files_are_read_when_evaluated() {
    let mut bytes = BRRES_MAGIC.to_vec();
    bytes.extend_from_slice(&[0; 12]);
    let mut map = VirtualRefCacheMap::new();
    let id = deserialize_maybe_compressed(RefCursor::new(bytes), &mut map, "model.brres".to_string()).ok().unwrap();
    let node = map.get(id).unwrap();
    assert_eq!(node.label, "model.brres");
    assert_eq!(node.kind, VirtualNodeKind::BrresDirectory);
    assert!(node.parent.is_none());
    assert!(!node.is_deferred());
}

#[test]
fn other_files_are_read_as_archives() {
    let bytes = one_file_arc(b"DATA");
    let mut map = VirtualRefCacheMap::new();
    let root = deserialize_maybe_compressed(RefCursor::new(bytes), &mut map, "course.u8".to_string()).ok().unwrap();
    let node = map.get(root).unwrap();
    assert_eq!(node.label, "course.u8");
    assert_eq!(node.kind, VirtualNodeKind::ArcDirectory { empty: false });
    let children = map.get_children(root).unwrap().clone();
    assert_eq!(children.len(), 1);
    let file = map.get(children[0]).unwrap();
    assert_eq!(file.label, "a");
    assert_eq!(file.kind, VirtualNodeKind::Unknown);
}

#[test]
fn unknown_magic_is_an_incorrect_archive() {
    let mut map = VirtualRefCacheMap::new();
    let r = deserialize_maybe_compressed(RefCursor::new(b"JUNKJUNKJUNK".to_vec()), &mut map, "x".to_string());
    assert!(matches!(r, Err(EditorError::IncorrectFormat { .. })));
    let r = deserialize_maybe_compressed(RefCursor::new(vec![0x55]), &mut map, "x".to_string());
    assert!(matches!(r, Err(EditorError::IoError { .. })));
}
