use mktools::editor::editor::{Editor, OpenedFileInfo};
use mktools::editor::tiles::{PaneTree, Tile, TileId};
use mktools::node::refs::VirtualRefCacheMap;

fn children(tree: &PaneTree, id: TileId) -> Vec<TileId> {
    match &tree.tiles[id.0] {
        Tile::Container { children } => children.clone(),
        Tile::Pane { .. } => panic!("expected a container"),
    }
}

fn signature(tree: &PaneTree, id: TileId) -> u64 {
    match &tree.tiles[id.0] {
        Tile::Pane { signature } => *signature,
        Tile::Container { .. } => panic!("expected a pane"),
    }
}

#[test]
fn first_pane_becomes_the_root() {
    let mut tree = PaneTree::new();
    let p = tree.open_pane(7);
    assert_eq!(p, TileId(0));
    assert_eq!(tree.root, Some(p));
    assert_eq!(signature(&tree, p), 7);
}

#[test]
fn a_pane_beside_a_root_pane_shares_a_new_container_with_it() {
    let mut tree = PaneTree::new();
    let a = tree.open_pane(1);
    let b = tree.open_pane(2);
    assert_eq!(b, TileId(1));
    assert_eq!(tree.tiles.len(), 3);
    assert_eq!(tree.root, Some(TileId(2)));
    assert_eq!(children(&tree, TileId(2)), vec![a, b]);
}

#[test]
fn panes_are_appended_to_a_root_container() {
    let mut tree = PaneTree::new();
    let a = tree.insert_pane(1);
    let b = tree.insert_pane(2);
    let c = tree.insert_horizontal_tile(vec![a, b]);
    tree.root = Some(c);
    let d = tree.open_pane(3);
    assert_eq!(d, TileId(3));
    assert_eq!(tree.root, Some(c));
    assert_eq!(children(&tree, c), vec![a, b, d]);
    assert_eq!(tree.tiles.len(), 4);
}

#[test]
fn a_root_naming_no_tile_is_replaced_by_the_pane() {
    let mut tree = PaneTree::new();
    tree.root = Some(TileId(5));
    let p = tree.open_pane(9);
    assert_eq!(tree.root, Some(p));
    assert_eq!(tree.tiles.len(), 1);
}

#[test]
fn panes_are_found_by_their_signature() {
    let mut tree = PaneTree::new();
    let a = tree.open_pane(1);
    let b = tree.open_pane(2);
    assert_eq!(tree.find_pane(1), Some(a));
    assert_eq!(tree.find_pane(2), Some(b));
    assert_eq!(tree.find_pane(3), None);
}

#[test]
fn editor_pane_requests_go_to_its_layout() {
    let mut map = VirtualRefCacheMap::new();
    let root = map.next_id();
    let mut editor = Editor {
        file_info: OpenedFileInfo::Web { file_name: "course.szs".to_string(), content: vec![] },
        file_base_node: root,
        node_map: map,
        pane_tree: PaneTree::new(),
        focused_tile: None,
    };
    let outliner = editor.on_pane_request(10);
    let viewer = editor.on_pane_request(11);
    assert_eq!(editor.pane_tree.root, Some(TileId(2)));
    assert_eq!(children(&editor.pane_tree, TileId(2)), vec![outliner, viewer]);
    let log = editor.on_pane_request(12);
    assert_eq!(children(&editor.pane_tree, TileId(2)), vec![outliner, viewer, log]);
    assert_eq!(editor.get_active_pane(), None);
    assert_eq!(editor.file_base_node, root);
}
