use mktools::error::EditorError;
use mktools::format::arc::{self, ARC_MAGIC};
use mktools::node::node::{NodeContents, VirtualNodeKind};
use mktools::node::refs::{VirtualNodeId, VirtualRefCacheMap};
use mktools::shared::util::RefCursor;

enum Entry<'a> {
    Dir { name: &'a str, skip: u32 },
    File { name: &'a str, data: &'a [u8] },
}

/// An archive whose nodes after the root are `entries`, in order.
fn archive(entries: &[Entry]) -> Vec<u8> {
    let count = entries.len() as u32 + 1;
    let node_offset = 0x20u32;
    let pool_start = node_offset + 12 * count;
    let mut pool = vec![0u8];
    let mut name_offsets = Vec::new();
    for e in entries {
        let name = match e {
            Entry::Dir { name, .. } | Entry::File { name, .. } => *name,
        };
        name_offsets.push(pool.len() as u32);
        pool.extend_from_slice(name.as_bytes());
        pool.push(0);
    }
    let mut data_start = pool_start + pool.len() as u32;
    data_start = (data_start + 15) / 16 * 16;
    let mut b = Vec::new();
    b.extend_from_slice(&ARC_MAGIC);
    b.extend_from_slice(&node_offset.to_be_bytes());
    b.extend_from_slice(&0u32.to_be_bytes());
    b.extend_from_slice(&data_start.to_be_bytes());
    b.extend_from_slice(&[0; 16]);
    b.extend_from_slice(&[1, 0, 0, 0]);
    b.extend_from_slice(&0u32.to_be_bytes());
    b.extend_from_slice(&count.to_be_bytes());
    let mut files = Vec::new();
    let mut next_data = data_start;
    for (e, off) in entries.iter().zip(name_offsets) {
        let off = off.to_be_bytes();
        match e {
            Entry::Dir { skip, .. } => {
                b.extend_from_slice(&[1, off[1], off[2], off[3]]);
                b.extend_from_slice(&0u32.to_be_bytes());
                b.extend_from_slice(&skip.to_be_bytes());
            },
            Entry::File { data, .. } => {
                b.extend_from_slice(&[0, off[1], off[2], off[3]]);
                b.extend_from_slice(&next_data.to_be_bytes());
                b.extend_from_slice(&(data.len() as u32).to_be_bytes());
                files.push((next_data, *data));
                next_data += data.len() as u32;
            },
        }
    }
    b.extend_from_slice(&pool);
    b.resize(data_start as usize, 0);
    for (at, data) in files {
        assert_eq!(b.len(), at as usize);
        b.extend_from_slice(data);
    }
    b
}

fn labels(map: &VirtualRefCacheMap, ids: &[VirtualNodeId]) -> Vec<String> {
    ids.iter().map(|id| map.get(*id).unwrap().label.clone()).collect()
}

#[test]
fn nested_directories_follow_their_skip_indices() {
    let bytes = archive(&[
        Entry::Dir { name: "a", skip: 3 },
        Entry::File { name: "x", data: b"raw1" },
        Entry::Dir { name: "b", skip: 5 },
        Entry::File { name: "y", data: b"raw2" },
    ]);
    let mut map = VirtualRefCacheMap::new();
    let root = arc::deserialize_virtual(&mut RefCursor::new(bytes), None, &mut map, "t.arc".to_string())
        .ok()
        .unwrap();
    let top = map.get_children(root).unwrap().clone();
    assert_eq!(labels(&map, &top), vec!["a", "b"]);
    let a = map.get_children(top[0]).unwrap().clone();
    assert_eq!(labels(&map, &a), vec!["x"]);
    let b = map.get_children(top[1]).unwrap().clone();
    assert_eq!(labels(&map, &b), vec!["y"]);
    assert_eq!(map.get(top[0]).unwrap().kind, VirtualNodeKind::ArcDirectory { empty: false });
    assert_eq!(map.get(a[0]).unwrap().kind, VirtualNodeKind::Unknown);
    assert_eq!(map.get(a[0]).unwrap().parent, Some(top[0]));
    assert!(matches!(map.get_inspectable(b[0]), Some(NodeContents::Raw(r)) if r.file_size() == 4));
}

#[test]
fn empty_directory_is_not_expandable() {
    let bytes = archive(&[Entry::Dir { name: "empty", skip: 2 }, Entry::File { name: "z", data: b"zzzz" }]);
    let mut map = VirtualRefCacheMap::new();
    let root = arc::deserialize_virtual(&mut RefCursor::new(bytes), None, &mut map, "t.arc".to_string())
        .ok()
        .unwrap();
    let top = map.get_children(root).unwrap().clone();
    assert_eq!(labels(&map, &top), vec!["empty", "z"]);
    let kind = map.get(top[0]).unwrap().kind;
    assert_eq!(kind, VirtualNodeKind::ArcDirectory { empty: true });
    assert!(!kind.is_expandable());
}

#[test]
fn nested_archive_gets_its_own_tree() {
    let inner = archive(&[Entry::File { name: "deep", data: b"data" }]);
    let bytes = archive(&[Entry::File { name: "inner.arc", data: &inner }]);
    let mut map = VirtualRefCacheMap::new();
    let root = arc::deserialize_virtual(&mut RefCursor::new(bytes), None, &mut map, "t.arc".to_string())
        .ok()
        .unwrap();
    let top = map.get_children(root).unwrap().clone();
    assert_eq!(labels(&map, &top), vec!["inner.arc"]);
    assert!(matches!(map.get(top[0]).unwrap().kind, VirtualNodeKind::ArcDirectory { .. }));
    let deep = map.get_children(top[0]).unwrap().clone();
    assert_eq!(labels(&map, &deep), vec!["deep"]);
}

#[test]
fn file_too_short_for_a_magic_fails() {
    let bytes = archive(&[Entry::File { name: "tiny", data: b"ab" }]);
    let mut map = VirtualRefCacheMap::new();
    assert!(matches!(
        arc::deserialize_virtual(&mut RefCursor::new(bytes), None, &mut map, "t.arc".to_string()),
        Err(EditorError::IoError { .. })
    ));
}

#[test]
fn broken_nested_archive_fails_the_outer_one() {
    let mut inner = archive(&[Entry::File { name: "deep", data: b"data" }]);
    inner[32] = 0; // the root of the inner archive is a file
    let bytes = archive(&[Entry::File { name: "inner.arc", data: &inner }]);
    let mut map = VirtualRefCacheMap::new();
    assert!(matches!(
        arc::deserialize_virtual(&mut RefCursor::new(bytes), None, &mut map, "t.arc".to_string()),
        Err(EditorError::Corrupted { .. })
    ));
}

#[test]
fn node_with_bad_type_fails() {
    let mut bytes = archive(&[Entry::File { name: "f", data: b"data" }]);
    bytes[0x2c] = 7;
    let mut map = VirtualRefCacheMap::new();
    assert!(matches!(
        arc::deserialize_virtual(&mut RefCursor::new(bytes), None, &mut map, "t.arc".to_string()),
        Err(EditorError::Corrupted { .. })
    ));
}
