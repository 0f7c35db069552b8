//! The tree of tiles that the panes of the editor are laid out in.
use vstd::prelude::*;

verus! {

/// Identifies a tile of a [`PaneTree`]: the place of the tile in the order in which
/// tiles were inserted, starting at 0.
#[derive(Debug, Copy, Clone, PartialEq, Eq, Structural, Hash)]
pub struct TileId(pub usize);

/// A tile: a pane, known by the signature of the content it shows (two panes with the
/// same signature show the same content), or a container that lays its children out
/// side by side.
#[derive(Debug, Clone)]
pub enum Tile {
    Pane { signature: u64 },
    Container { children: Vec<TileId> },
}

/// A tile as a mathematical value.
pub enum TileView {
    Pane { signature: u64 },
    Container { children: Seq<TileId> },
}

impl View for Tile {
    type V = TileView;

    open spec fn view(&self) -> TileView {
        match self {
            Tile::Pane { signature } => TileView::Pane { signature: *signature },
            Tile::Container { children } => TileView::Container { children: children@ },
        }
    }
}

/// The tiles of the editor, with the one at the root of the layout.
pub struct PaneTree {
    pub tiles: Vec<Tile>,
    pub root: Option<TileId>,
}

/// Whether some tile of `tiles` is a pane with signature `signature`.
pub open spec fn has_pane(tiles: Seq<TileView>, signature: u64) -> bool {
    exists|k: int| 0 <= k < tiles.len() && #[trigger] tiles[k] == (TileView::Pane { signature })
}

/// The tiles and the root after a pane with signature `signature` was inserted into
/// `tiles` (with root `root`) as tile `tiles.len()`: it becomes the root of an empty
/// tree, the last child of a root container, or, beside a root pane, a child of a new
/// container that becomes the root; where the root names no tile, the pane replaces it.
pub open spec fn after_pane_request(tiles: Seq<TileView>, root: Option<TileId>, signature: u64) -> (
    Seq<TileView>,
    Option<TileId>,
) {
    let n = tiles.len();
    let pane = TileId(n as usize);
    let with_pane = tiles.push(TileView::Pane { signature });
    match root {
        Some(q) => if q.0 < n {
            match tiles[q.0 as int] {
                TileView::Container { children } => (
                    with_pane.update(q.0 as int, TileView::Container { children: children.push(pane) }),
                    root,
                ),
                TileView::Pane { .. } => (
                    with_pane.push(TileView::Container { children: seq![q, pane] }),
                    Some(TileId((n + 1) as usize)),
                ),
            }
        } else {
            (with_pane, Some(pane))
        },
        None => (with_pane, Some(pane)),
    }
}

/// After a pane request, a pane shows the requested content, the tiles that were there
/// stay (a container among them may gain a child), and the root names a tile.
pub proof fn lemma_pane_request_opens_pane(tiles: Seq<TileView>, root: Option<TileId>, signature: u64)
    requires
        tiles.len() + 2 <= usize::MAX,
    ensures
        ({
            let (after, new_root) = after_pane_request(tiles, root, signature);
            &&& has_pane(after, signature)
            &&& after.len() >= tiles.len() + 1
            &&& forall|k: int| 0 <= k < tiles.len() && #[trigger] tiles[k] is Pane ==> after[k] == tiles[k]
            &&& new_root matches Some(q) && q.0 < after.len()
        }),
{
    let (after, new_root) = after_pane_request(tiles, root, signature);
    assert(after[tiles.len() as int] == (TileView::Pane { signature }));
}

impl PaneTree {
    /// The tiles as mathematical values.
    pub open spec fn tiles_view(&self) -> Seq<TileView> {
        self.tiles@.map_values(|t: Tile| t@)
    }

    /// A tree without tiles.
    pub fn new() -> (r: Self)
        ensures
            r.tiles_view() == Seq::<TileView>::empty(),
            r.root is None,
    {
        let r = PaneTree { tiles: Vec::new(), root: None };
        assert(r.tiles_view() =~= Seq::<TileView>::empty());
        r
    }

    /// Adds `tile` as the last tile, without attaching it anywhere.
    fn insert_tile(&mut self, tile: Tile) -> (r: TileId)
        requires
            old(self).tiles@.len() < usize::MAX,
        ensures
            r.0 == old(self).tiles@.len(),
            final(self).tiles@.len() == old(self).tiles@.len() + 1,
            final(self).tiles_view() == old(self).tiles_view().push(tile@),
            final(self).root == old(self).root,
    {
        let id = TileId(self.tiles.len());
        self.tiles.push(tile);
        assert(self.tiles_view() =~= old(self).tiles_view().push(tile@));
        id
    }

    /// Adds a pane with the given signature as the last tile, without attaching it.
    pub fn insert_pane(&mut self, signature: u64) -> (r: TileId)
        requires
            old(self).tiles@.len() < usize::MAX,
        ensures
            r.0 == old(self).tiles@.len(),
            final(self).tiles@.len() == old(self).tiles@.len() + 1,
            final(self).tiles_view() == old(self).tiles_view().push(TileView::Pane { signature }),
            final(self).root == old(self).root,
    {
        self.insert_tile(Tile::Pane { signature })
    }

    /// Adds a container with the given children as the last tile, without attaching it.
    pub fn insert_horizontal_tile(&mut self, children: Vec<TileId>) -> (r: TileId)
        requires
            old(self).tiles@.len() < usize::MAX,
        ensures
            r.0 == old(self).tiles@.len(),
            final(self).tiles_view() == old(self).tiles_view().push(TileView::Container { children: children@ }),
            final(self).root == old(self).root,
    {
        self.insert_tile(Tile::Container { children })
    }

    /// Appends `child` to the children of the container `container`.
    fn add_child(&mut self, container: TileId, child: TileId)
        requires
            container.0 < old(self).tiles@.len(),
            old(self).tiles_view()[container.0 as int] is Container,
        ensures
            final(self).tiles_view() == old(self).tiles_view().update(
                container.0 as int,
                TileView::Container {
                    children: old(self).tiles_view()[container.0 as int]->Container_children.push(child),
                },
            ),
            final(self).root == old(self).root,
    {
        let mut children: Vec<TileId> = Vec::new();
        match &self.tiles[container.0] {
            Tile::Container { children: old_children } => {
                let mut k: usize = 0;
                while k < old_children.len()
                    invariant
                        k <= old_children@.len(),
                        children@ == old_children@.subrange(0, k as int),
                    decreases old_children@.len() - k,
                {
                    children.push(old_children[k]);
                    k = k + 1;
                    assert(children@ =~= old_children@.subrange(0, k as int));
                }
                assert(children@ =~= old_children@);
            },
            Tile::Pane { .. } => {},
        }
        children.push(child);
        self.tiles.set(container.0, Tile::Container { children });
        assert(self.tiles_view() =~= old(self).tiles_view().update(
            container.0 as int,
            TileView::Container {
                children: old(self).tiles_view()[container.0 as int]->Container_children.push(child),
            },
        ));
    }

    /// A pane with the given signature, if the tree has one.
    pub fn find_pane(&self, signature: u64) -> (r: Option<TileId>)
        ensures
            match r {
                Some(id) => id.0 < self.tiles@.len() && self.tiles_view()[id.0 as int] == (TileView::Pane {
                    signature,
                }),
                None => !has_pane(self.tiles_view(), signature),
            },
    {
        let mut k: usize = 0;
        while k < self.tiles.len()
            invariant
                k <= self.tiles@.len(),
                forall|j: int| 0 <= j < k ==> self.tiles_view()[j] != (TileView::Pane { signature }),
            decreases self.tiles@.len() - k,
        {
            match &self.tiles[k] {
                Tile::Pane { signature: s } => {
                    if *s == signature {
                        return Some(TileId(k));
                    }
                },
                Tile::Container { .. } => {},
            }
            k = k + 1;
        }
        None
    }

    /// Inserts a pane with the given signature and attaches it to the layout (see
    /// [`after_pane_request`]). Returns the ID of the new pane.
    pub fn open_pane(&mut self, signature: u64) -> (r: TileId)
        requires
            old(self).tiles@.len() + 2 <= usize::MAX,
        ensures
            r.0 == old(self).tiles@.len(),
            (final(self).tiles_view(), final(self).root) == after_pane_request(
                old(self).tiles_view(),
                old(self).root,
                signature,
            ),
    {
        let new_pane_id = self.insert_pane(signature);
        match self.root {
            None => {
                self.root = Some(new_pane_id);
            },
            Some(root_id) => {
                if root_id.0 < self.tiles.len() - 1 {
                    let root_is_container = match &self.tiles[root_id.0] {
                        Tile::Container { .. } => true,
                        Tile::Pane { .. } => false,
                    };
                    assert(self.tiles_view()[root_id.0 as int] == self.tiles@[root_id.0 as int]@);
                    if root_is_container {
                        self.add_child(root_id, new_pane_id);
                    } else {
                        let mut children: Vec<TileId> = Vec::new();
                        children.push(root_id);
                        children.push(new_pane_id);
                        assert(children@ =~= seq![root_id, new_pane_id]);
                        let new_root = self.insert_horizontal_tile(children);
                        self.root = Some(new_root);
                    }
                } else {
                    self.root = Some(new_pane_id);
                }
            },
        }
        new_pane_id
    }
}

} // verus!
