//! The state of the editor page: the file opened in it, its nodes, and the layout of
//! its panes.
use vstd::prelude::*;

use crate::editor::tiles::{after_pane_request, has_pane, PaneTree, TileId};
use crate::node::refs::{VirtualNodeId, VirtualNodeMap};

verus! {

/// The node whose properties are shown, with its label.
pub struct Properties {
    pub label: String,
    pub node_id: VirtualNodeId,
}

/// A file opened in the editor: from a path on the local machine, or handed over by a
/// web page (which gives no path).
#[derive(Debug, Clone, PartialEq, Eq)]
pub enum OpenedFileInfo {
    Native { path: String, file_name: String, content: Vec<u8> },
    Web { file_name: String, content: Vec<u8> },
}

impl OpenedFileInfo {
    /// The bytes of the file.
    pub fn content(&self) -> (r: &[u8])
        ensures
            r@ == match self {
                OpenedFileInfo::Native { content, .. } => content@,
                OpenedFileInfo::Web { content, .. } => content@,
            },
    {
        match self {
            OpenedFileInfo::Native { content, .. } => content.as_slice(),
            OpenedFileInfo::Web { content, .. } => content.as_slice(),
        }
    }

    /// The name of the file, without its directory.
    pub fn file_name(&self) -> (r: &str)
        ensures
            r@ == match self {
                OpenedFileInfo::Native { file_name, .. } => file_name@,
                OpenedFileInfo::Web { file_name, .. } => file_name@,
            },
    {
        match self {
            OpenedFileInfo::Native { file_name, .. } => file_name.as_str(),
            OpenedFileInfo::Web { file_name, .. } => file_name.as_str(),
        }
    }
}

/// The state of the editor page for one opened file.
pub struct Editor {
    /// The file open in the editor.
    pub file_info: OpenedFileInfo,
    /// The root node of the file.
    pub file_base_node: VirtualNodeId,
    pub node_map: VirtualNodeMap,
    /// The tiles that the panes are laid out in.
    pub pane_tree: PaneTree,
    /// The pane that has the focus, if any.
    pub focused_tile: Option<TileId>,
}

impl Editor {
    /// The pane that has the focus, if any.
    pub fn get_active_pane(&self) -> (r: Option<TileId>)
        ensures
            r == self.focused_tile,
    {
        self.focused_tile
    }

    /// Handles a request for a pane showing the content with signature `signature`:
    /// inserts a new pane and attaches it to the layout (see [`after_pane_request`]),
    /// then returns its tile. A request for content that a pane already shows is
    /// not handled here: the caller finds that pane with [`PaneTree::find_pane`].
    pub fn on_pane_request(&mut self, signature: u64) -> (r: TileId)
        requires
            !has_pane(old(self).pane_tree.tiles_view(), signature),
            old(self).pane_tree.tiles@.len() + 2 <= usize::MAX,
        ensures
            r.0 == old(self).pane_tree.tiles@.len(),
            (final(self).pane_tree.tiles_view(), final(self).pane_tree.root) == after_pane_request(
                old(self).pane_tree.tiles_view(),
                old(self).pane_tree.root,
                signature,
            ),
            final(self).file_info == old(self).file_info,
            final(self).file_base_node == old(self).file_base_node,
            final(self).node_map == old(self).node_map,
            final(self).focused_tile == old(self).focused_tile,
    {
        self.pane_tree.open_pane(signature)
    }
}

} // verus!
