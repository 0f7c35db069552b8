//! The map from node IDs to nodes.
use vstd::prelude::*;

use crate::error::{invalid_input, EditorError, EditorResult};
use crate::format::{brres, mdl0};
use crate::node::defer::{DeferPayload, Deferred, DeferredParse};
use crate::node::node::{NodeContents, VirtualNode, VirtualNodeBody};

verus! {

/// An ID referring to a node. IDs start at 1.
#[derive(Debug, Copy, Clone, PartialEq, Eq, Hash)]
pub struct VirtualNodeId(usize);

impl VirtualNodeId {
    /// The number of this ID.
    pub closed spec fn value(self) -> int {
        self.0 as int
    }

    /// The number of this ID.
    pub fn into_inner(self) -> (r: usize)
        ensures
            r == self.value(),
    {
        self.0
    }
}

/// Maps between node IDs and the nodes that the IDs refer to.
///
/// IDs are handed out by a counter that is never reset; slot `i` of the map holds
/// the node with ID `i + 1`, once it has been inserted.
pub struct VirtualRefCacheMap {
    refs: Vec<Option<VirtualNode>>,
}

pub type VirtualNodeMap = VirtualRefCacheMap;

impl VirtualRefCacheMap {
    /// The slots of the map: slot `i` belongs to ID `i + 1`.
    pub closed spec fn slots(&self) -> Seq<Option<VirtualNode>> {
        self.refs@
    }

    /// The node with ID `id`, if it has been inserted.
    pub open spec fn node(&self, id: VirtualNodeId) -> Option<VirtualNode> {
        if 1 <= id.value() <= self.slots().len() {
            self.slots()[id.value() - 1]
        } else {
            None
        }
    }

    /// Whether `id` has been handed out by this map.
    pub open spec fn issued(&self, id: VirtualNodeId) -> bool {
        1 <= id.value() <= self.slots().len()
    }

    /// `other` has handed out every ID that `self` handed out, and holds for each of
    /// them what `self` holds.
    pub open spec fn extends(&self, other: &Self) -> bool {
        &&& self.slots().len() <= other.slots().len()
        &&& forall|i: int| 0 <= i < self.slots().len() ==> other.slots()[i] == #[trigger] self.slots()[i]
    }

    /// An empty map.
    pub fn new() -> (r: Self)
        ensures
            r.slots().len() == 0,
    {
        VirtualRefCacheMap { refs: Vec::new() }
    }

    /// Returns the next unassigned ID. The counter is never reset, so an ID is never
    /// handed out twice.
    pub fn next_id(&mut self) -> (r: VirtualNodeId)
        ensures
            final(self).slots() == old(self).slots().push(None),
            r.value() == final(self).slots().len(),
    {
        self.refs.push(None);
        VirtualNodeId(self.refs.len())
    }

    /// Returns the node with the given ID, if it exists.
    pub fn get(&self, id: VirtualNodeId) -> (r: Option<&VirtualNode>)
        ensures
            (r is Some <==> self.node(id) is Some),
            r is Some ==> self.node(id) == Some(*r->0),
    {
        if id.0 >= 1 && id.0 <= self.refs.len() {
            self.refs[id.0 - 1].as_ref()
        } else {
            None
        }
    }

    /// Takes the node with the given ID out of the map, leaving its ID unassigned.
    pub fn take(&mut self, id: VirtualNodeId) -> (r: Option<VirtualNode>)
        ensures
            r == old(self).node(id),
            final(self).slots() == if old(self).issued(id) {
                old(self).slots().update(id.value() - 1, None)
            } else {
                old(self).slots()
            },
    {
        if id.0 >= 1 && id.0 <= self.refs.len() {
            let i = id.0 - 1;
            let mut slot: Option<VirtualNode> = None;
            std::mem::swap(&mut slot, &mut self.refs[i]);
            slot
        } else {
            None
        }
    }

    /// The children of the given node, if it exists and has been evaluated.
    pub fn get_children(&self, id: VirtualNodeId) -> (r: Option<&Vec<VirtualNodeId>>)
        ensures
            r is Some <==> (self.node(id) matches Some(n) && n.body.get_spec() is Some),
            r is Some ==> self.node(id)->0.body.get_spec()->0.children == *r->0,
    {
        match self.get(id) {
            Some(node) => match node.body.get() {
                Some(body) => Some(&body.children),
                None => None,
            },
            None => None,
        }
    }

    /// The parsed contents of the given node, if it exists, has been evaluated and has contents.
    pub fn get_inspectable(&self, id: VirtualNodeId) -> (r: Option<&NodeContents>)
        ensures
            match self.node(id) {
                Some(n) => match n.body {
                    Deferred::Evaluated(b) => (r is Some <==> b.inspectable is Some) && (r is Some ==> b.inspectable->0
                        == *r->0),
                    Deferred::Deferred(_) => r is None,
                },
                None => r is None,
            },
    {
        match self.get(id) {
            Some(node) => node.inspectable(),
            None => None,
        }
    }

    /// Parses the contents of node `id` where they are still deferred, and stores them in
    /// the node; nodes that the parse makes are added to this map. A node that is
    /// already evaluated is left as it is. Fails where the node does not exist, or where
    /// it has no parse to run (its parse was already taken by an earlier evaluation), or
    /// where the parse fails; in the last case the node keeps a deferred body whose parse
    /// is gone, so evaluating it again fails with an invalid-input error.
    ///
    /// On success the map is the one the parse leaves (see [`deferred_parse_result`]),
    /// with the node's body replaced by what the parse gave.
    pub fn evaluate(&mut self, id: VirtualNodeId) -> (r: EditorResult<()>)
        ensures
            old(self).slots().len() <= final(self).slots().len(),
            forall|i: int|
                0 <= i < old(self).slots().len() && i != id.value() - 1 ==> #[trigger] final(self).slots()[i]
                    == old(self).slots()[i],
            match old(self).node(id) {
                None => r matches Err(e) && e is InvalidInput && final(self).slots() == old(self).slots(),
                Some(n) => match n.body {
                    Deferred::Evaluated(_) => r is Ok && final(self).slots() == old(self).slots(),
                    Deferred::Deferred(pl) => match r {
                        Ok(_) => final(self).node(id) matches Some(m) && m.label == n.label && m.id == n.id
                            && m.kind == n.kind && m.parent == n.parent && m.body is Evaluated && pl.payload is Some
                            && exists|pre: VirtualNodeMap, mid: VirtualNodeMap, b: VirtualNodeBody|
                            #![trigger deferred_parse_result(pl.payload->0, id, &pre, &mid, Ok(b))]
                            pre.slots() == old(self).slots().update(id.value() - 1, None) && deferred_parse_result(
                                pl.payload->0,
                                id,
                                &pre,
                                &mid,
                                Ok(b),
                            ) && final(self).slots() == mid.slots().update(
                                id.value() - 1,
                                Some(VirtualNode { body: Deferred::Evaluated(b), ..n }),
                            ),
                        Err(e) => if pl.payload is None {
                            e is InvalidInput && final(self).slots() == old(self).slots()
                        } else {
                            &&& final(self).node(id) == Some(
                                VirtualNode { body: Deferred::Deferred(DeferPayload { payload: None }), ..n },
                            )
                            &&& exists|pre: VirtualNodeMap, mid: VirtualNodeMap|
                                #![trigger deferred_parse_result(pl.payload->0, id, &pre, &mid, Err(e))]
                                pre.slots() == old(self).slots().update(id.value() - 1, None) && deferred_parse_result(
                                    pl.payload->0,
                                    id,
                                    &pre,
                                    &mid,
                                    Err(e),
                                ) && final(self).slots() == mid.slots().update(
                                    id.value() - 1,
                                    Some(VirtualNode { body: Deferred::Deferred(DeferPayload { payload: None }), ..n }),
                                )
                        },
                    },
                },
            },
    {
        let ghost before = *self;
        let mut node = match self.take(id) {
            None => {
                return Err(invalid_input("virtual node does not exist".to_owned(), None));
            },
            Some(n) => n,
        };
        let ghost n = node;
        let ghost taken = *self;
        assert(before.issued(id));
        let parse = match &mut node.body {
            Deferred::Evaluated(_) => {
                self.insert(id, node);
                proof {
                    lemma_take_then_insert(before.slots(), id);
                }
                return Ok(());
            },
            Deferred::Deferred(payload) => match payload.load() {
                Ok(p) => p,
                Err(e) => {
                    self.insert(id, node);
                    proof {
                        lemma_take_then_insert(before.slots(), id);
                    }
                    return Err(e);
                },
            },
        };
        let ghost p = parse;
        assert(n.body matches Deferred::Deferred(pl) && pl.payload == Some(p));
        assert(node == VirtualNode { body: Deferred::Deferred(DeferPayload { payload: None }), ..n });
        let result = match parse {
            DeferredParse::Brres { reader } => {
                let mut reader = reader;
                brres::parse_brres(&mut reader, id, self)
            },
            DeferredParse::Mdl0Section { reader, header_start, section_offset, section_ty, parent_id } => {
                let mut reader = reader;
                mdl0::deserialize_section(&mut reader, header_start, section_offset, section_ty, parent_id, self)
            },
        };
        let ghost after_parse = *self;
        proof {
            assert(deferred_parse_result(p, id, &taken, &after_parse, result));
            assert(taken.slots() == before.slots().update(id.value() - 1, None));
        }
        match result {
            Ok(b) => {
                node.body = Deferred::evaluated(b);
                self.insert(id, node);
                proof {
                    assert(deferred_parse_result(p, id, &taken, &after_parse, Ok(b)));
                    assert(taken.extends(&after_parse));
                    assert(taken.slots() == old(self).slots().update(id.value() - 1, None));
                    assert(old(self).node(id) == Some(n));
                    assert(n.body matches Deferred::Deferred(pl) && pl.payload == Some(p));
                    assert(self.slots() =~= after_parse.slots().update(
                        id.value() - 1,
                        Some(VirtualNode { body: Deferred::Evaluated(b), ..n }),
                    ));
                    assert forall|i: int| 0 <= i < old(self).slots().len() && i != id.value() - 1 implies #[trigger] self.slots()[i]
                        == old(self).slots()[i] by {
                        assert(after_parse.slots()[i] == taken.slots()[i]);
                    }
                    assert(self.node(id) == Some(VirtualNode { body: Deferred::Evaluated(b), ..n }));
                    let pp = n.body->Deferred_0.payload->0;
                    assert(pp == p);
                    assert(deferred_parse_result(pp, id, &taken, &after_parse, Ok(b)));
                    assert(exists|pre: VirtualNodeMap, mid: VirtualNodeMap, bb: VirtualNodeBody|
                        #![trigger deferred_parse_result(pp, id, &pre, &mid, Ok(bb))]
                        pre.slots() == old(self).slots().update(id.value() - 1, None) && deferred_parse_result(
                            pp,
                            id,
                            &pre,
                            &mid,
                            Ok(bb),
                        ) && self.slots() == mid.slots().update(
                            id.value() - 1,
                            Some(VirtualNode { body: Deferred::Evaluated(bb), ..n }),
                        ));
                    assert(self.slots() =~= after_parse.slots().update(
                        id.value() - 1,
                        Some(VirtualNode { body: Deferred::Evaluated(b), ..n }),
                    ));
                }
                Ok(())
            },
            Err(e) => {
                self.insert(id, node);
                proof {
                    assert(deferred_parse_result(p, id, &taken, &after_parse, Err(e)));
                    assert(taken.extends(&after_parse));
                    assert(taken.slots() == old(self).slots().update(id.value() - 1, None));
                    assert(old(self).node(id) == Some(n));
                    assert forall|i: int| 0 <= i < old(self).slots().len() && i != id.value() - 1 implies #[trigger] self.slots()[i]
                        == old(self).slots()[i] by {
                        assert(after_parse.slots()[i] == taken.slots()[i]);
                    }
                    assert(self.node(id) == Some(VirtualNode { body: Deferred::Deferred(DeferPayload { payload: None }), ..n }));
                    assert(self.slots() =~= after_parse.slots().update(
                        id.value() - 1,
                        Some(VirtualNode { body: Deferred::Deferred(DeferPayload { payload: None }), ..n }),
                    ));
                }
                Err(e)
            },
        }
    }

    /// Inserts a node with an ID that this map has handed out (see
    /// [`next_id`](Self::next_id)), replacing what the map held for it. IDs are handed
    /// out by [`next_id`](Self::next_id) alone, so inserting never changes the IDs that
    /// are handed out later.
    pub fn insert(&mut self, id: VirtualNodeId, node: VirtualNode)
        requires
            old(self).issued(id),
        ensures
            final(self).slots() == slots_after_insert(old(self).slots(), id, node),
            final(self).slots().len() == old(self).slots().len(),
            final(self).node(id) == Some(node),
            forall|i: int|
                0 <= i < final(self).slots().len() && i != id.value() - 1 ==> (#[trigger] final(self).slots()[i])
                    == old(self).slots()[i],
    {
        self.refs.set(id.0 - 1, Some(node));
        assert(self.slots() =~= slots_after_insert(old(self).slots(), id, node));
    }
}

/// What running the parse `parse` for node `id` gives, from map `before` to map
/// `after`: the directories of a BRRES file (see [`brres::brres_result`]) or a section of
/// an MDL0 model (see [`mdl0::section_result`]).
pub open spec fn deferred_parse_result(
    parse: DeferredParse,
    id: VirtualNodeId,
    before: &VirtualNodeMap,
    after: &VirtualNodeMap,
    r: EditorResult<VirtualNodeBody>,
) -> bool {
    match parse {
        DeferredParse::Brres { reader } => brres::brres_result(reader.bytes(), reader.pos(), id, before, after, r),
        DeferredParse::Mdl0Section { reader, header_start, section_offset, section_ty, parent_id } => mdl0::section_result(
            reader.bytes(),
            header_start,
            section_offset,
            section_ty,
            parent_id,
            before,
            after,
            r,
        ),
    }
}

/// The slots of a map after `node` is inserted with ID `id` into slots `s`: the slot of
/// `id` holds the node, slots that `id` lies beyond are added empty.
pub open spec fn slots_after_insert(s: Seq<Option<VirtualNode>>, id: VirtualNodeId, node: VirtualNode) -> Seq<Option<VirtualNode>> {
    s.update(id.value() - 1, Some(node))
}

/// An ID that [`VirtualRefCacheMap::next_id`] hands out was not handed out before, and
/// no node has it yet: IDs are never reused.
pub proof fn lemma_next_id_fresh(before: &VirtualNodeMap, after: &VirtualNodeMap, id: VirtualNodeId)
    requires
        after.slots() == before.slots().push(None),
        id.value() == after.slots().len(),
    ensures
        !before.issued(id),
        after.issued(id),
        after.node(id) is None,
        forall|other: VirtualNodeId| #[trigger] before.issued(other) ==> other.value() < id.value(),
{
}

/// Reading a node back after inserting it gives the inserted node; every other node is
/// as it was, and the same IDs are handed out.
pub proof fn lemma_get_after_insert(
    before: &VirtualNodeMap,
    after: &VirtualNodeMap,
    id: VirtualNodeId,
    node: VirtualNode,
    other: VirtualNodeId,
)
    requires
        before.issued(id),
        after.slots() == slots_after_insert(before.slots(), id, node),
    ensures
        after.node(id) == Some(node),
        other != id ==> after.node(other) == before.node(other),
        after.issued(other) == before.issued(other),
{
}

/// Two IDs with the same number are the same ID.
pub proof fn lemma_id_value_injective(x: VirtualNodeId, y: VirtualNodeId)
    ensures
        x.value() == y.value() ==> x == y,
{
}

/// The IDs that two calls of [`VirtualRefCacheMap::next_id`] in a row hand out, on a map
/// that has handed out `n` IDs, are `n + 1` and `n + 2`: IDs count up from 1 (a new map
/// has handed out none), and inserting nodes never changes them.
pub proof fn lemma_next_ids_count_up(
    m0: &VirtualNodeMap,
    m1: &VirtualNodeMap,
    m2: &VirtualNodeMap,
    a: VirtualNodeId,
    b: VirtualNodeId,
)
    requires
        m1.slots() == m0.slots().push(None),
        a.value() == m1.slots().len(),
        m2.slots() == m1.slots().push(None),
        b.value() == m2.slots().len(),
    ensures
        a.value() == m0.slots().len() + 1,
        b.value() == a.value() + 1,
{
}

/// Inserting a node under an ID that was handed out hands out no ID: the next call of
/// [`VirtualRefCacheMap::next_id`] gives the same ID as it would have before.
pub proof fn lemma_insert_keeps_next_id(before: &VirtualNodeMap, after: &VirtualNodeMap, id: VirtualNodeId, node: VirtualNode)
    requires
        before.issued(id),
        after.slots() == slots_after_insert(before.slots(), id, node),
    ensures
        after.slots().len() == before.slots().len(),
        forall|other: VirtualNodeId| #[trigger] after.issued(other) <==> before.issued(other),
{
}

/// Taking a node out of a map and inserting it again with its ID gives back the map.
pub proof fn lemma_take_then_insert(s: Seq<Option<VirtualNode>>, id: VirtualNodeId)
    requires
        1 <= id.value() <= s.len(),
        s[id.value() - 1] is Some,
    ensures
        slots_after_insert(s.update(id.value() - 1, None), id, s[id.value() - 1]->0) == s,
{
    assert(slots_after_insert(s.update(id.value() - 1, None), id, s[id.value() - 1]->0) =~= s);
}

/// `id` is a node of `map` whose parent is `parent`.
pub open spec fn attached(map: &VirtualNodeMap, id: VirtualNodeId, parent: Option<VirtualNodeId>) -> bool {
    map.node(id) matches Some(n) && n.parent == parent && n.id == id
}

/// The body of node `id` of `map` is evaluated, and all its children are nodes of
/// `map` with parent `id`, issued after the first `base` IDs.
pub open spec fn children_attached(map: &VirtualNodeMap, id: VirtualNodeId, base: int) -> bool {
    map.node(id) matches Some(n) && n.body matches Deferred::Evaluated(b) && forall|k: int|
        0 <= k < b.children@.len() ==> attached(map, #[trigger] b.children@[k], Some(id))
            && b.children@[k].value() > base
}

/// Extension of maps is transitive: a map that extends one that extends a third
/// extends the third.
pub proof fn lemma_extends_trans(a: &VirtualNodeMap, b: &VirtualNodeMap, c: &VirtualNodeMap)
    requires
        a.extends(b),
        b.extends(c),
    ensures
        a.extends(c),
{
    assert forall|i: int| 0 <= i < a.slots().len() implies c.slots()[i] == #[trigger] a.slots()[i] by {
        assert(b.slots()[i] == a.slots()[i]);
    }
}

} // verus!
