use mktools::decorations::WindowState;
use mktools::editor::editor::{OpenedFileInfo, Properties};
use mktools::error::EditorError;
use mktools::inspector::raw::Raw;
use mktools::node::defer::{DeferPayload, Deferred, DeferredParse};
use mktools::node::node::{NodeContents, VirtualNode, VirtualNodeBody, VirtualNodeKind};
use mktools::node::refs::VirtualRefCacheMap;
use mktools::shared::util::RefCursor;

fn leaf(map: &mut VirtualRefCacheMap, label: &str) -> VirtualNode {
    let id = map.next_id();
    VirtualNode {
        label: label.to_string(),
        id,
        kind: VirtualNodeKind::Unknown,
        parent: None,
        body: Deferred::evaluated(VirtualNodeBody { children: Vec::new(), inspectable: None }),
    }
}

#[test]
fn window_maximize_toggles() {
    let mut w = WindowState::default();
    assert_eq!(w, WindowState::Normal);
    assert!(w.toggle_maximized());
    assert_eq!(w, WindowState::Maximized);
    assert!(!w.toggle_maximized());
    assert_eq!(w, WindowState::Normal);
    let mut w = WindowState::Minimized;
    assert!(w.toggle_maximized());
    assert_eq!(w, WindowState::Maximized);
}

#[test]
fn opened_file_names_and_contents() {
    let native = OpenedFileInfo::Native {
        path: "/tracks/course.szs".to_string(),
        file_name: "course.szs".to_string(),
        content: vec![1, 2, 3],
    };
    assert_eq!(native.file_name(), "course.szs");
    assert_eq!(native.content(), &[1, 2, 3]);
    let web = OpenedFileInfo::Web { file_name: "kart.brres".to_string(), content: vec![9] };
    assert_eq!(web.file_name(), "kart.brres");
    assert_eq!(web.content(), &[9]);
    assert_ne!(native, web.clone());
}

#[test]
fn node_ids_are_never_reused() {
    let mut map = VirtualRefCacheMap::new();
    let a = map.next_id();
    let b = map.next_id();
    assert_eq!(a.into_inner(), 1);
    assert_eq!(b.into_inner(), 2);
    assert!(map.get(a).is_none());
    let node = leaf(&mut map, "x");
    let c = node.id;
    assert_eq!(c.into_inner(), 3);
    map.insert(c, node);
    let taken = map.take(c).unwrap();
    assert!(map.get(c).is_none());
    // a taken ID is not handed out again
    assert_eq!(map.next_id().into_inner(), 4);
    map.insert(c, taken);
    assert_eq!(map.get(c).unwrap().label, "x");
}

#[test]
fn insert_then_get_and_others_unchanged() {
    let mut map = VirtualRefCacheMap::new();
    let first = leaf(&mut map, "first");
    let first_id = first.id;
    map.insert(first_id, first);
    let second = leaf(&mut map, "second");
    let second_id = second.id;
    map.insert(second_id, second);
    assert_eq!(map.get(first_id).unwrap().label, "first");
    assert_eq!(map.get(second_id).unwrap().label, "second");
    let replacement = VirtualNode {
        label: "again".to_string(),
        id: first_id,
        kind: VirtualNodeKind::Bone { end: true },
        parent: Some(second_id),
        body: Deferred::evaluated(VirtualNodeBody { children: vec![second_id], inspectable: None }),
    };
    map.insert(first_id, replacement);
    assert_eq!(map.get(first_id).unwrap().label, "again");
    assert_eq!(map.get_children(first_id).unwrap(), &vec![second_id]);
    assert_eq!(map.get(second_id).unwrap().label, "second");
}

#[test]
fn evaluating_an_evaluated_node_changes_nothing() {
    let mut map = VirtualRefCacheMap::new();
    let node = leaf(&mut map, "done");
    let id = node.id;
    map.insert(id, node);
    assert!(map.evaluate(id).is_ok());
    assert_eq!(map.get(id).unwrap().label, "done");
    assert!(map.get_children(id).unwrap().is_empty());
}

#[test]
fn evaluating_a_used_payload_is_invalid_input() {
    let mut map = VirtualRefCacheMap::new();
    let id = map.next_id();
    let node = VirtualNode {
        label: "spent".to_string(),
        id,
        kind: VirtualNodeKind::Unknown,
        parent: None,
        body: Deferred::Deferred(DeferPayload { payload: None }),
    };
    map.insert(id, node);
    assert!(matches!(map.evaluate(id), Err(EditorError::InvalidInput { .. })));
    assert!(!map.get(id).unwrap().is_deferred());
}

#[test]
fn deferred_contents_are_not_available() {
    let parse = DeferredParse::Brres { reader: RefCursor::new(vec![0; 4]) };
    let d: Deferred<u32> = Deferred::defer(parse).ok().unwrap();
    assert!(!d.is_deferred());
    assert!(d.get().is_none());
    let e: Deferred<u32> = Deferred::evaluated(7);
    assert!(e.is_deferred());
    assert_eq!(e.get(), Some(&7));
    let mut payload = DeferPayload { payload: None };
    assert!(matches!(payload.load(), Err(EditorError::InvalidInput { .. })));
    let mut payload = DeferPayload { payload: Some(DeferredParse::Brres { reader: RefCursor::new(vec![1]) }) };
    assert!(matches!(payload.load(), Ok(DeferredParse::Brres { .. })));
    assert!(payload.payload.is_none());
    assert!(matches!(payload.load(), Err(EditorError::InvalidInput { .. })));
}

#[test]
fn expandable_kinds() {
    assert!(VirtualNodeKind::ArcDirectory { empty: false }.is_expandable());
    assert!(!VirtualNodeKind::ArcDirectory { empty: true }.is_expandable());
    assert!(VirtualNodeKind::BrresDirectory.is_expandable());
    assert!(VirtualNodeKind::Mdl0Root.is_expandable());
    assert!(VirtualNodeKind::Bone { end: false }.is_expandable());
    assert!(!VirtualNodeKind::Bone { end: true }.is_expandable());
    assert!(!VirtualNodeKind::Vertices.is_expandable());
    assert!(!VirtualNodeKind::Unknown.is_expandable());
}

#[test]
fn raw_contents_and_properties() {
    let mut cursor = RefCursor::new(vec![0; 10]);
    cursor.set_position(4);
    let raw = Raw { bytes: cursor };
    assert_eq!(raw.file_size(), 6);
    let mut map = VirtualRefCacheMap::new();
    let id = map.next_id();
    map.insert(
        id,
        VirtualNode {
            label: "file".to_string(),
            id,
            kind: VirtualNodeKind::Unknown,
            parent: None,
            body: Deferred::evaluated(VirtualNodeBody {
                children: Vec::new(),
                inspectable: Some(NodeContents::Raw(raw)),
            }),
        },
    );
    assert!(matches!(map.get_inspectable(id), Some(NodeContents::Raw(r)) if r.file_size() == 6));
    let props = Properties { label: "file".to_string(), node_id: id };
    assert_eq!(props.node_id, id);
    assert_eq!(props.label, map.get(id).unwrap().label);
}

#[test]
fn evaluated_contents_can_be_inspected_and_changed() {
    let mut e: Deferred<u32> = Deferred::evaluated(7);
    assert_eq!(e.inspect_ref(|x| *x * 2), Some(14));
    if let Some(x) = e.get_mut() {
        *x = 9;
    }
    assert_eq!(e.get(), Some(&9));
    let mut d: Deferred<u32> = Deferred::defer(DeferredParse::Brres { reader: RefCursor::new(vec![]) }).ok().unwrap();
    assert_eq!(d.inspect_ref(|x| *x), None);
    assert!(d.get_mut().is_none());
    assert!(!d.is_deferred());
}

#[test]
fn node_contents_can_be_changed_in_place() {
    let mut node = VirtualNode {
        label: "file".to_string(),
        id: VirtualRefCacheMap::new().next_id(),
        kind: VirtualNodeKind::Unknown,
        parent: None,
        body: Deferred::evaluated(VirtualNodeBody {
            children: Vec::new(),
            inspectable: Some(NodeContents::Raw(Raw { bytes: RefCursor::new(vec![1, 2, 3]) })),
        }),
    };
    if let Some(NodeContents::Raw(raw)) = node.inspectable_mut() {
        raw.bytes.set_position(2);
    }
    assert!(matches!(node.inspectable(), Some(NodeContents::Raw(r)) if r.file_size() == 1));
    let mut empty = VirtualNode {
        label: "dir".to_string(),
        id: VirtualRefCacheMap::new().next_id(),
        kind: VirtualNodeKind::Unknown,
        parent: None,
        body: Deferred::evaluated(VirtualNodeBody { children: Vec::new(), inspectable: None }),
    };
    assert!(empty.inspectable_mut().is_none());
    let mut deferred = VirtualNode {
        label: "brres".to_string(),
        id: VirtualRefCacheMap::new().next_id(),
        kind: VirtualNodeKind::BrresDirectory,
        parent: None,
        body: Deferred::defer(DeferredParse::Brres { reader: RefCursor::new(vec![]) }).ok().unwrap(),
    };
    assert!(deferred.inspectable_mut().is_none());
}
