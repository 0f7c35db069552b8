//! Nodes of the tree of files, directories and sections that the editor shows.
use vstd::prelude::*;

use crate::format::mdl0::bytecode::Bytecode;
use crate::format::mdl0::colors::Colors;
use crate::format::mdl0::materials::MaterialBuf;
use crate::format::mdl0::normals::NormalBuf;
use crate::format::mdl0::polygons::Polygon;
use crate::format::mdl0::tevs::Tev;
use crate::format::mdl0::tex_links::TextureLinks;
use crate::format::mdl0::textures::Texture;
use crate::format::mdl0::uvs::Uvs;
use crate::format::mdl0::vertices::Vertices;
use crate::inspector::raw::Raw;
use crate::node::defer::Deferred;
use crate::node::refs::VirtualNodeId;

verus! {

/// Parsed contents of a node that can be opened in the inspector.
pub enum NodeContents {
    Raw(Raw),
    Bytecode(Bytecode),
    Vertices(Vertices),
    Normals(NormalBuf),
    Colors(Colors),
    Uvs(Uvs),
    Materials(MaterialBuf),
    Tev(Tev),
    Polygon(Polygon),
    TextureLinks(TextureLinks),
    Texture(Texture),
}

/// The contents of a virtual node: further nodes, and optional contents of its own.
pub struct VirtualNodeBody {
    /// The nodes that are contained in this one.
    pub children: Vec<VirtualNodeId>,
    /// Optional contents of this node. This is mostly used for files.
    pub inspectable: Option<NodeContents>,
}

/// A node in the file system of the editor. Nodes refer to each other by ID; the
/// nodes themselves live in a [`crate::node::refs::VirtualRefCacheMap`].
pub struct VirtualNode {
    /// The label that is displayed in the outliner.
    pub label: String,
    /// The ID of this node.
    pub id: VirtualNodeId,
    /// What kind of content this node holds.
    pub kind: VirtualNodeKind,
    /// The parent of this node (if known).
    pub parent: Option<VirtualNodeId>,
    /// The contents of this node; they can be deferred and parsed lazily.
    pub body: Deferred<VirtualNodeBody>,
}

impl VirtualNode {
    /// Whether the body of this node has fully been parsed (see
    /// [`Deferred::is_deferred`]).
    pub fn is_deferred(&self) -> (r: bool)
        ensures
            r == (self.body is Evaluated),
    {
        self.body.is_deferred()
    }

    /// The parsed contents of this node, if it has been evaluated and has contents.
    pub fn inspectable(&self) -> (r: Option<&NodeContents>)
        ensures
            match self.body {
                Deferred::Evaluated(b) => (r is Some <==> b.inspectable is Some) && (r is Some
                    ==> b.inspectable->0 == *r->0),
                Deferred::Deferred(_) => r is None,
            },
    {
        match self.body.get() {
            Some(b) => b.inspectable.as_ref(),
            None => None,
        }
    }

    /// The parsed contents of this node, to be changed in place, if it has been evaluated
    /// and has contents.
    pub fn inspectable_mut(&mut self) -> (r: Option<&mut NodeContents>)
        ensures
            match old(self).body {
                Deferred::Evaluated(b) => match b.inspectable {
                    Some(c) => r matches Some(m) && *m == c && final(self).body == Deferred::<
                        VirtualNodeBody,
                    >::Evaluated(VirtualNodeBody { children: b.children, inspectable: Some(*final(m)) })
                        && final(self).label == old(self).label && final(self).id == old(self).id
                        && final(self).kind == old(self).kind && final(self).parent == old(self).parent,
                    None => r is None && *final(self) == *old(self),
                },
                Deferred::Deferred(_) => r is None && *final(self) == *old(self),
            },
    {
        match self.body.get_mut() {
            Some(b) => match &mut b.inspectable {
                Some(c) => Some(c),
                None => None,
            },
            None => None,
        }
    }
}

/// The category this node belongs to.
#[derive(Debug, Copy, Clone, PartialEq, Eq)]
pub enum VirtualNodeKind {
    /// A directory of an ARC file; `empty` when it has no children.
    ArcDirectory { empty: bool },
    /// A directory in a BRRES file.
    BrresDirectory,
    /// The root of an MDL0 model.
    Mdl0Root,
    /// The bytecode section of an MDL0 file.
    Bytecode,
    /// A bone of an MDL0 file; `end` for the last bone of a limb.
    Bone { end: bool },
    Vertices,
    Normals,
    Colors,
    Uvs,
    Materials,
    Tevs,
    Shape,
    TextureLinks,
    PaletteLinks,
    Unknown,
}

/// Whether nodes of kind `k` get a collapsible header in the outliner.
pub open spec fn expandable(k: VirtualNodeKind) -> bool {
    match k {
        VirtualNodeKind::ArcDirectory { empty } => !empty,
        VirtualNodeKind::BrresDirectory => true,
        VirtualNodeKind::Mdl0Root => true,
        VirtualNodeKind::Bone { end } => !end,
        _ => false,
    }
}

/// Exactly the nodes that show children under a collapsible header are expandable: an
/// ARC directory that is not empty, a BRRES directory, the root of a model, and a bone
/// that is not the end of a limb.
pub proof fn lemma_expandable_kinds(k: VirtualNodeKind)
    ensures
        expandable(k) <==> (k == VirtualNodeKind::ArcDirectory { empty: false } || k == VirtualNodeKind::BrresDirectory
            || k == VirtualNodeKind::Mdl0Root || k == VirtualNodeKind::Bone { end: false }),
{
}

impl VirtualNodeKind {
    /// Whether this node is expandable, i.e. has a collapsible header.
    pub fn is_expandable(&self) -> (r: bool)
        ensures
            r == expandable(*self),
    {
        match self {
            VirtualNodeKind::ArcDirectory { empty: true }
            | VirtualNodeKind::Bytecode
            | VirtualNodeKind::Bone { end: true }
            | VirtualNodeKind::Vertices
            | VirtualNodeKind::Normals
            | VirtualNodeKind::Colors
            | VirtualNodeKind::Uvs
            | VirtualNodeKind::Materials
            | VirtualNodeKind::Tevs
            | VirtualNodeKind::Shape
            | VirtualNodeKind::TextureLinks
            | VirtualNodeKind::PaletteLinks
            | VirtualNodeKind::Unknown => false,
            _ => true,
        }
    }
}

} // verus!
