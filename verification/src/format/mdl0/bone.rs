//! The bones of an MDL0 model and the skeleton they form.
use vstd::prelude::*;

use crate::error::{corrupted, invalid_input, EditorError, EditorResult};
use crate::format::brres::{entries_at, entry_name, entry_name_error, entry_name_ok, index_group_size, IndexGroup, IndexGroupEntry};
use crate::format::encoding::Deserialize;
use crate::format::mdl0::bones::{bone_record_error, bone_record_ok, bones_is, BillboardSetting, BoneFlags, Bones};
use crate::node::defer::Deferred;
use crate::node::node::{VirtualNode, VirtualNodeBody, VirtualNodeKind};
use crate::node::refs::{VirtualNodeId, VirtualNodeMap};
use crate::shared::util::{can_read, i32_be, u32_be, RefCursor};

verus! {

/// A bone record, with the position it was read from.
pub struct Bone {
    /// Position of the record in the reader it was read from.
    pub bone_start: u32,
    pub mdl0_offset: i32,
    pub name_offset: i32,
    pub index: u32,
    pub id: u32,
    pub flags: BoneFlags,
    pub billboard_setting: BillboardSetting,
    pub billboard_transform: u32,
    /// Bits of the single-precision components of each vector and matrix below.
    pub scaling_vector: [u32; 3],
    pub rotation_vector: [u32; 3],
    pub translation_vector: [u32; 3],
    pub bounding_volume_min: [u32; 3],
    pub bounding_volume_max: [u32; 3],
    /// Offset from the start of this record to the record of the parent; 0 for the root.
    pub parent_offset: i32,
    pub first_child_offset: i32,
    pub next_sibling_offset: i32,
    pub previous_sibling_offset: i32,
    pub user_data_offset: i32,
    pub transform_matrix: [u32; 12],
    pub inverse_matrix: [u32; 12],
}

/// Whether `b` is the bone record stored at `p` of `s`.
pub open spec fn bone_is(s: Seq<u8>, p: int, b: Bone) -> bool {
    &&& b.bone_start == p as u32
    &&& bones_is(
        s,
        p,
        Bones {
            mdl0_offset: b.mdl0_offset,
            name_offset: b.name_offset,
            index: b.index,
            id: b.id,
            flags: b.flags,
            billboard_setting: b.billboard_setting,
            billboard_transform: b.billboard_transform,
            scaling_vector: b.scaling_vector,
            rotation_vector: b.rotation_vector,
            translation_vector: b.translation_vector,
            bounding_volume_min: b.bounding_volume_min,
            bounding_volume_max: b.bounding_volume_max,
            parent_offset: b.parent_offset,
            first_child_offset: b.first_child_offset,
            next_sibling_offset: b.next_sibling_offset,
            previous_sibling_offset: b.previous_sibling_offset,
            user_data_offset: b.user_data_offset,
            transform_matrix: b.transform_matrix,
            inverse_matrix: b.inverse_matrix,
        },
    )
}

/// Where each field of the value lies: the bytes it is read from.
pub proof fn lemma_bone_layout(s: Seq<u8>, p: int, b: Bone)
    requires
        bone_is(s, p, b),
    ensures
        (b.bone_start == p as u32),
        (bones_is( s, p, Bones { mdl0_offset: b.mdl0_offset, name_offset: b.name_offset, index: b.index, id: b.id, flags: b.flags, billboard_setting: b.billboard_setting, billboard_transform: b.billboard_transform, scaling_vector: b.scaling_vector, rotation_vector: b.rotation_vector, translation_vector: b.translation_vector, bounding_volume_min: b.bounding_volume_min, bounding_volume_max: b.bounding_volume_max, parent_offset: b.parent_offset, first_child_offset: b.first_child_offset, next_sibling_offset: b.next_sibling_offset, previous_sibling_offset: b.previous_sibling_offset, user_data_offset: b.user_data_offset, transform_matrix: b.transform_matrix, inverse_matrix: b.inverse_matrix, }, )),
{
}

impl Bone {
    /// Reads the bone record at the position of `reader`, then moves to its end as
    /// given by its length field.
    pub fn deserialize(reader: &mut RefCursor) -> (r: EditorResult<Self>)
        ensures
            final(reader).bytes() == old(reader).bytes(),
            ({
                let s = old(reader).bytes();
                let p = old(reader).pos();
                match r {
                    Ok(b) => bone_record_ok(s, p) && bone_is(s, p, b) && final(reader).pos() == p + u32_be(s, p),
                    Err(e) => !bone_record_ok(s, p) && bone_record_error(s, p, e),
                }
            }),
    {
        let start = reader.position();
        let b = Bones::deserialize_section(reader, 0)?;
        Ok(Bone {
            bone_start: start as u32,
            mdl0_offset: b.mdl0_offset,
            name_offset: b.name_offset,
            index: b.index,
            id: b.id,
            flags: b.flags,
            billboard_setting: b.billboard_setting,
            billboard_transform: b.billboard_transform,
            scaling_vector: b.scaling_vector,
            rotation_vector: b.rotation_vector,
            translation_vector: b.translation_vector,
            bounding_volume_min: b.bounding_volume_min,
            bounding_volume_max: b.bounding_volume_max,
            parent_offset: b.parent_offset,
            first_child_offset: b.first_child_offset,
            next_sibling_offset: b.next_sibling_offset,
            previous_sibling_offset: b.previous_sibling_offset,
            user_data_offset: b.user_data_offset,
            transform_matrix: b.transform_matrix,
            inverse_matrix: b.inverse_matrix,
        })
    }
}

/// A bone and its name.
pub struct NamedBone {
    pub name: String,
    pub bone: Bone,
}

/// A bone that refers to its parent by node ID rather than by offset.
pub struct VirtualBone {
    pub index: u32,
    pub id: u32,
    pub flags: BoneFlags,
    pub billboard_setting: BillboardSetting,
    pub billboard_transform: u32,
    /// Bits of the single-precision components of each vector and matrix below.
    pub scaling_vector: [u32; 3],
    pub rotation_vector: [u32; 3],
    pub translation_vector: [u32; 3],
    pub bounding_volume_min: [u32; 3],
    pub bounding_volume_max: [u32; 3],
    pub parent: VirtualNodeId,
    pub user_data_offset: i32,
    pub transform_matrix: [u32; 12],
    pub inverse_matrix: [u32; 12],
}

/// The offset between the start of a bone record and its index.
pub const BONE_INDEX_OFFSET: u64 = 12;

/// Position of the index field of the parent record of `b`.
pub open spec fn parent_index_pos(b: Bone) -> int {
    ((b.bone_start as i64 + b.parent_offset as i64) as u64) + BONE_INDEX_OFFSET
}

/// Index into the bone list of the parent of each bone; -1 for the bones with
/// parent offset 0 (roots).
pub open spec fn parent_indices(s: Seq<u8>, bones: Seq<NamedBone>) -> Seq<int> {
    Seq::new(
        bones.len(),
        |j: int|
            if bones[j].bone.parent_offset == 0 {
                -1
            } else {
                u32_be(s, parent_index_pos(bones[j].bone)) as int
            },
    )
}

/// Where the parent of every bone can be resolved: its index field can be read and
/// names another bone of the list.
pub open spec fn parents_ok(s: Seq<u8>, bones: Seq<NamedBone>) -> bool {
    forall|j: int|
        0 <= j < bones.len() && bones[j].bone.parent_offset != 0 ==> {
            &&& parent_index_pos(#[trigger] bones[j].bone) <= u64::MAX
            &&& can_read(s, parent_index_pos(bones[j].bone), 4)
            &&& u32_be(s, parent_index_pos(bones[j].bone)) != j
            &&& u32_be(s, parent_index_pos(bones[j].bone)) < bones.len()
        }
}

/// Whether the parent of bone `j` can be resolved (see [`parents_ok`]); a root needs none.
pub open spec fn parent_ok(s: Seq<u8>, bones: Seq<NamedBone>, j: int) -> bool {
    bones[j].bone.parent_offset != 0 ==> {
        &&& parent_index_pos(bones[j].bone) <= u64::MAX
        &&& can_read(s, parent_index_pos(bones[j].bone), 4)
        &&& u32_be(s, parent_index_pos(bones[j].bone)) != j
        &&& u32_be(s, parent_index_pos(bones[j].bone)) < bones.len()
    }
}

/// Whether `e` is the error of resolving a parent whose index field is at `pos` where it
/// cannot be resolved: a corruption error for a position past the largest one, the end
/// of the input, or an invalid input for an index that names the bone itself or no bone.
pub open spec fn parent_error(s: Seq<u8>, pos: int, e: EditorError) -> bool {
    if !(pos <= u64::MAX) {
        e is Corrupted
    } else if !can_read(s, pos, 4) {
        e is IoError
    } else {
        e is InvalidInput
    }
}

/// Indices `j < m` (in increasing order) of the bones whose parent is bone `i`.
pub open spec fn child_indices(par: Seq<int>, i: int, m: nat) -> Seq<int>
    decreases m,
{
    if m == 0 {
        Seq::empty()
    } else {
        let prev = child_indices(par, i, (m - 1) as nat);
        if par[m - 1] == i {
            prev.push(m - 1)
        } else {
            prev
        }
    }
}

/// The index of the last root bone among the first `m`, if any.
pub open spec fn last_root(bones: Seq<NamedBone>, m: nat) -> Option<int>
    decreases m,
{
    if m == 0 {
        None
    } else if bones[m - 1].bone.parent_offset == 0 {
        Some(m - 1)
    } else {
        last_root(bones, (m - 1) as nat)
    }
}

/// The parent indices `par` once only the first `m` bones have been attached to their
/// parents: the bones from `m` on have none yet.
pub open spec fn prefix_parents(par: Seq<int>, m: int) -> Seq<int> {
    Seq::new(par.len(), |j: int| if j < m { par[j] } else { -1 })
}

/// Whether the node of bone `i` in `map` is the node of that bone with the parent
/// links `par` (the index of each bone's parent, -1 for none): labelled with the
/// bone's name, attached to the node of bone `par[i]` (none for -1), and with the nodes
/// of the bones whose parent is bone `i` as its children, in order. The node of bone
/// `j` has ID `base + 1 + j`.
pub open spec fn bone_node_linked(map: &VirtualNodeMap, base: int, bones: Seq<NamedBone>, par: Seq<int>, i: int) -> bool {
    let kids = child_indices(par, i, bones.len());
    &&& 0 <= base + i < map.slots().len()
    &&& map.slots()[base + i] matches Some(n) && {
        &&& n.id.value() == base + 1 + i
        &&& n.label@ == bones[i].name@
        &&& n.kind == VirtualNodeKind::Bone { end: kids.len() == 0 }
        &&& if par[i] == -1 {
            n.parent is None
        } else {
            n.parent matches Some(q) && q.value() == base + 1 + par[i]
        }
        &&& n.body matches Deferred::Evaluated(b) && b.inspectable is None && b.children@.len() == kids.len()
            && forall|k: int| 0 <= k < kids.len() ==> (#[trigger] b.children@[k]).value() == base + 1 + kids[k]
    }
}

/// Whether the node of bone `i` in `map` is as the skeleton makes it: every bone
/// attached to its parent (see [`bone_node_linked`]).
pub open spec fn bone_node_ok(map: &VirtualNodeMap, base: int, s: Seq<u8>, bones: Seq<NamedBone>, i: int) -> bool {
    bone_node_linked(map, base, bones, parent_indices(s, bones), i)
}

/// Puts the node of every bone into the slot of its ID (`ids[j]`, issued one after
/// another from `base + 1` on), the first `parents.len()` bones attached to their
/// parent bones (`parents[j]`, none for a root) and listed among its children.
fn insert_bone_nodes(
    bones: &Vec<NamedBone>,
    ids: &Vec<VirtualNodeId>,
    parents: &Vec<Option<usize>>,
    node_map: &mut VirtualNodeMap,
    Ghost(base): Ghost<int>,
    Ghost(par): Ghost<Seq<int>>,
)
    requires
        ids@.len() == bones@.len(),
        par.len() == bones@.len(),
        0 <= base,
        old(node_map).slots().len() == base + bones@.len(),
        forall|j: int| 0 <= j < ids@.len() ==> (#[trigger] ids@[j]).value() == base + 1 + j,
        parents@.len() <= bones@.len(),
        forall|j: int|
            0 <= j < parents@.len() ==> match #[trigger] parents@[j] {
                Some(q) => par[j] == q && q < bones@.len(),
                None => par[j] == -1,
            },
    ensures
        final(node_map).slots().len() == old(node_map).slots().len(),
        forall|j: int| 0 <= j < base ==> #[trigger] final(node_map).slots()[j] == old(node_map).slots()[j],
        forall|i: int|
            0 <= i < bones@.len() ==> #[trigger] bone_node_linked(
                &*final(node_map),
                base,
                bones@,
                prefix_parents(par, parents@.len() as int),
                i,
            ),
{
    let n = bones.len();
    let m = parents.len();
    let ghost pp = prefix_parents(par, m as int);
    let mut i: usize = 0;
    while i < n
        invariant
            n == bones@.len(),
            m == parents@.len(),
            m <= n,
            pp == prefix_parents(par, m as int),
            par.len() == n,
            forall|j: int|
                0 <= j < m ==> match #[trigger] parents@[j] {
                    Some(q) => par[j] == q && q < n,
                    None => par[j] == -1,
                },
            ids@.len() == n,
            forall|j: int| 0 <= j < n ==> (#[trigger] ids@[j]).value() == base + 1 + j,
            0 <= base,
            i <= n,
            node_map.slots().len() == old(node_map).slots().len(),
            old(node_map).slots().len() == base + n,
            forall|j: int| 0 <= j < base ==> #[trigger] node_map.slots()[j] == old(node_map).slots()[j],
            forall|j: int| 0 <= j < i ==> #[trigger] bone_node_linked(&*node_map, base, bones@, pp, j),
        decreases n - i,
    {
        let mut children: Vec<VirtualNodeId> = Vec::new();
        let mut j: usize = 0;
        while j < n
            invariant
                n == bones@.len(),
                m == parents@.len(),
                m <= n,
                pp == prefix_parents(par, m as int),
                par.len() == n,
                forall|k: int|
                    0 <= k < m ==> match #[trigger] parents@[k] {
                        Some(q) => par[k] == q && q < n,
                        None => par[k] == -1,
                    },
                ids@.len() == n,
                forall|k: int| 0 <= k < n ==> (#[trigger] ids@[k]).value() == base + 1 + k,
                i < n,
                j <= n,
                children@.len() == child_indices(pp, i as int, j as nat).len(),
                forall|k: int|
                    0 <= k < children@.len() ==> (#[trigger] children@[k]).value() == base + 1 + child_indices(
                        pp,
                        i as int,
                        j as nat,
                    )[k],
            decreases n - j,
        {
            let is_child = if j < m {
                match parents[j] {
                    Some(q) => q == i,
                    None => false,
                }
            } else {
                false
            };
            if is_child {
                children.push(ids[j]);
            }
            j = j + 1;
        }
        let parent = if i < m {
            match parents[i] {
                Some(q) => Some(ids[q]),
                None => None,
            }
        } else {
            None
        };
        let end = children.len() == 0;
        let node = VirtualNode {
            label: bones[i].name.clone(),
            id: ids[i],
            kind: VirtualNodeKind::Bone { end },
            parent,
            body: Deferred::evaluated(VirtualNodeBody { children, inspectable: None }),
        };
        let ghost before = *node_map;
        node_map.insert(ids[i], node);
        proof {
            assert forall|j: int| 0 <= j <= i implies #[trigger] bone_node_linked(&*node_map, base, bones@, pp, j) by {
                if j < i {
                    assert(bone_node_linked(&before, base, bones@, pp, j));
                    assert(node_map.slots()[base + j] == before.slots()[base + j]);
                } else {
                    assert(node_map.slots()[base + j] == node_map.node(ids@[j]));
                }
            }
        }
        i = i + 1;
    }
}

/// Builds the skeleton: a node for every bone (the node of bone `j` gets the `j`-th
/// fresh ID), each attached to the node of its parent bone. The parent of a bone is
/// the bone whose index is stored in the record that its parent offset points to.
/// Returns the node of the last root bone (a bone with parent offset 0). The nodes of
/// root bones get no parent; `_parent_id` is not used. Where a parent cannot be
/// resolved, the nodes of all bones stay in the map, those before the failing bone
/// attached to their parents.
fn build_skeleton_tree(
    reader: &mut RefCursor,
    bones: &Vec<NamedBone>,
    _parent_id: VirtualNodeId,
    node_map: &mut VirtualNodeMap,
) -> (r: EditorResult<VirtualNodeId>)
    ensures
        final(reader).bytes() == old(reader).bytes(),
        old(node_map).extends(&*final(node_map)),
        final(node_map).slots().len() == old(node_map).slots().len() + bones@.len(),
        ({
            let s = old(reader).bytes();
            let base = old(node_map).slots().len() as int;
            match r {
                Ok(root) => {
                    &&& parents_ok(s, bones@)
                    &&& last_root(bones@, bones@.len()) matches Some(ri) && root.value() == base + 1 + ri
                    &&& forall|i: int| 0 <= i < bones@.len() ==> #[trigger] bone_node_ok(&*final(node_map), base, s, bones@, i)
                },
                Err(e) => if !parents_ok(s, bones@) {
                    exists|j: int|
                        0 <= j < bones@.len() && (forall|i: int| 0 <= i < j ==> #[trigger] parent_ok(s, bones@, i))
                            && !#[trigger] parent_ok(s, bones@, j) && parent_error(
                            s,
                            parent_index_pos(bones@[j].bone),
                            e,
                        ) && forall|i: int|
                            0 <= i < bones@.len() ==> #[trigger] bone_node_linked(
                                &*final(node_map),
                                base,
                                bones@,
                                prefix_parents(parent_indices(s, bones@), j),
                                i,
                            )
                } else {
                    &&& last_root(bones@, bones@.len()) is None
                    &&& e is InvalidInput
                    &&& forall|i: int| 0 <= i < bones@.len() ==> #[trigger] bone_node_ok(&*final(node_map), base, s, bones@, i)
                },
            }
        }),
{
    let ghost s = reader.bytes();
    let ghost base = node_map.slots().len() as int;
    let n = bones.len();
    let mut ids: Vec<VirtualNodeId> = Vec::new();
    let mut i: usize = 0;
    while i < n
        invariant
            n == bones@.len(),
            i <= n,
            old(node_map).extends(&*node_map),
            base == old(node_map).slots().len(),
            node_map.slots().len() == base + i,
            ids@.len() == i,
            forall|j: int| 0 <= j < i ==> (#[trigger] ids@[j]).value() == base + 1 + j,
        decreases n - i,
    {
        let id = node_map.next_id();
        ids.push(id);
        i = i + 1;
    }
    let ghost par = parent_indices(s, bones@);
    let ghost mid = *node_map;
    let mut parents: Vec<Option<usize>> = Vec::new();
    let mut found_root: Option<usize> = None;
    let mut i: usize = 0;
    while i < n
        invariant
            n == bones@.len(),
            reader.bytes() == s,
            s == old(reader).bytes(),
            par == parent_indices(s, bones@),
            old(node_map).extends(&mid),
            *node_map == mid,
            base == old(node_map).slots().len(),
            mid.slots().len() == base + n,
            ids@.len() == n,
            forall|j: int| 0 <= j < n ==> (#[trigger] ids@[j]).value() == base + 1 + j,
            i <= n,
            parents@.len() == i,
            forall|j: int|
                0 <= j < i ==> match #[trigger] parents@[j] {
                    Some(q) => par[j] == q && q < n,
                    None => par[j] == -1,
                },
            forall|j: int|
                0 <= j < i && bones@[j].bone.parent_offset != 0 ==> {
                    &&& parent_index_pos(#[trigger] bones@[j].bone) <= u64::MAX
                    &&& can_read(s, parent_index_pos(bones@[j].bone), 4)
                    &&& u32_be(s, parent_index_pos(bones@[j].bone)) != j
                    &&& u32_be(s, parent_index_pos(bones@[j].bone)) < bones@.len()
                },
            match found_root {
                Some(ri) => last_root(bones@, i as nat) == Some(ri as int),
                None => last_root(bones@, i as nat) is None,
            },
            forall|j: int| 0 <= j < i ==> #[trigger] parent_ok(s, bones@, j),
        decreases n - i,
    {
        let bone = &bones[i].bone;
        proof {
            assert(parent_index_pos(bones@[i as int].bone) == parent_index_pos(*bone));
        }
        if bone.parent_offset == 0 {
            found_root = Some(i);
            parents.push(None);
        } else {
            let parent_start: i64 = bone.bone_start as i64 + bone.parent_offset as i64;
            let at = parent_start as u64;
            let failure = if at > u64::MAX - BONE_INDEX_OFFSET {
                assert(!parent_ok(s, bones@, i as int));
                Some(corrupted("bone parent offset overflows".to_owned(), None))
            } else {
                reader.set_position(at + BONE_INDEX_OFFSET);
                match reader.read_u32() {
                    Err(e) => {
                        assert(!parent_ok(s, bones@, i as int));
                        Some(e)
                    },
                    Ok(parent_index) => if parent_index as usize == i {
                        assert(!parent_ok(s, bones@, i as int));
                        Some(invalid_input("a bone is its own parent".to_owned(), None))
                    } else if parent_index as usize >= n {
                        assert(!parent_ok(s, bones@, i as int));
                        Some(invalid_input("a bone's parent index lies outside the skeleton".to_owned(), None))
                    } else {
                        parents.push(Some(parent_index as usize));
                        None
                    },
                }
            };
            if let Some(e) = failure {
                assert(parent_error(s, parent_index_pos(bones@[i as int].bone), e));
                insert_bone_nodes(bones, &ids, &parents, node_map, Ghost(base), Ghost(par));
                assert(!parents_ok(s, bones@));
                assert(forall|j: int| 0 <= j < base ==> #[trigger] node_map.slots()[j] == old(node_map).slots()[j]);
                assert(forall|k: int|
                    0 <= k < bones@.len() ==> #[trigger] bone_node_linked(
                        &*node_map,
                        base,
                        bones@,
                        prefix_parents(parent_indices(s, bones@), i as int),
                        k,
                    ));
                assert(forall|k: int| 0 <= k < i ==> #[trigger] parent_ok(s, bones@, k));
                return Err(e);
            }
        }
        i = i + 1;
    }
    proof {
        lemma_last_root_bounds(bones@, n as nat);
        assert(prefix_parents(par, n as int) =~= par);
    }
    insert_bone_nodes(bones, &ids, &parents, node_map, Ghost(base), Ghost(par));
    match found_root {
        Some(root_index) => Ok(ids[root_index]),
        None => Err(invalid_input("skeleton contained no root bone".to_owned(), None)),
    }
}

/// Where the bones section at `p` of `s` can be read: its index group, and the name and
/// bone record of every entry after the first.
pub open spec fn skeleton_entries_ok(s: Seq<u8>, p: int) -> bool {
    let n = u32_be(s, p + 4);
    let entries = entries_at(s, p + 8, (n + 1) as nat);
    &&& can_read(s, p, index_group_size(s, p))
    &&& forall|k: int|
        1 <= k <= n ==> {
            &&& entry_name_ok(s, p as u32, #[trigger] entries[k])
            &&& (p as u32) + entries[k].data_pointer <= u32::MAX
            &&& bone_record_ok(s, (p as u32) + entries[k].data_pointer)
        }
}

/// Position of the bone record of entry `k` of the bones section at `p` of `s`.
pub open spec fn bone_start_of(s: Seq<u8>, p: int, k: int) -> int {
    (p as u32) + entries_at(s, p + 8, (u32_be(s, p + 4) + 1) as nat)[k].data_pointer
}

/// Position of the index field of the record that the parent offset of the bone record
/// at `q` points to.
pub open spec fn parent_pos_of(s: Seq<u8>, q: int) -> int {
    ((q as u32 as i64 + i32_be(s, q + 92) as i64) as u64) + BONE_INDEX_OFFSET
}

/// Where the parent of every bone of the bones section at `p` can be resolved: for a
/// bone with a non-zero parent offset, the index field it points to can be read and
/// names another bone of the section.
pub open spec fn skeleton_parents_ok(s: Seq<u8>, p: int) -> bool {
    let n = u32_be(s, p + 4);
    forall|k: int|
        1 <= k <= n && i32_be(s, #[trigger] bone_start_of(s, p, k) + 92) != 0 ==> {
            let pos = parent_pos_of(s, bone_start_of(s, p, k));
            &&& pos <= u64::MAX
            &&& can_read(s, pos, 4)
            &&& u32_be(s, pos) != k - 1
            &&& u32_be(s, pos) < n
        }
}

/// Whether entry `k` of the bones section at `p` can be read: its name, its data
/// position and its bone record.
pub open spec fn skeleton_entry_ok(s: Seq<u8>, p: int, k: int) -> bool {
    let entry = entries_at(s, p + 8, (u32_be(s, p + 4) + 1) as nat)[k];
    &&& entry_name_ok(s, p as u32, entry)
    &&& (p as u32) + entry.data_pointer <= u32::MAX
    &&& bone_record_ok(s, (p as u32) + entry.data_pointer)
}

/// Whether `e` is the error that reading entry `k` of the bones section at `p` gives
/// where it cannot be read: that of its name, a corruption error for a data position
/// past the largest one, or that of its bone record.
pub open spec fn skeleton_entry_error(s: Seq<u8>, p: int, k: int, e: EditorError) -> bool {
    let entry = entries_at(s, p + 8, (u32_be(s, p + 4) + 1) as nat)[k];
    if !entry_name_ok(s, p as u32, entry) {
        entry_name_error(s, p as u32, entry, e)
    } else if !((p as u32) + entry.data_pointer <= u32::MAX) {
        e is Corrupted
    } else {
        bone_record_error(s, (p as u32) + entry.data_pointer, e)
    }
}

/// Whether the parent of the bone of entry `k` of the bones section at `p` can be
/// resolved (see [`skeleton_parents_ok`]).
pub open spec fn skeleton_parent_ok(s: Seq<u8>, p: int, k: int) -> bool {
    let pos = parent_pos_of(s, bone_start_of(s, p, k));
    i32_be(s, bone_start_of(s, p, k) + 92) != 0 ==> {
        &&& pos <= u64::MAX
        &&& can_read(s, pos, 4)
        &&& u32_be(s, pos) != k - 1
        &&& u32_be(s, pos) < u32_be(s, p + 4)
    }
}

/// Whether `e` is the error that reading the bones section at `p` of `s` gives where it
/// cannot be read: the end of the input within its index group, that of its first entry
/// that cannot be read, that of the first bone whose parent cannot be resolved, else an
/// invalid input for a skeleton without a root.
pub open spec fn skeleton_error(s: Seq<u8>, p: int, e: EditorError) -> bool {
    let n = u32_be(s, p + 4);
    if !can_read(s, p, index_group_size(s, p)) {
        e is IoError
    } else if !skeleton_entries_ok(s, p) {
        exists|k: int|
            1 <= k <= n && (forall|j: int| 1 <= j < k ==> #[trigger] skeleton_entry_ok(s, p, j))
                && !#[trigger] skeleton_entry_ok(s, p, k) && skeleton_entry_error(s, p, k, e)
    } else if !skeleton_parents_ok(s, p) {
        exists|k: int|
            1 <= k <= n && (forall|j: int| 1 <= j < k ==> #[trigger] skeleton_parent_ok(s, p, j))
                && !#[trigger] skeleton_parent_ok(s, p, k) && parent_error(
                s,
                parent_pos_of(s, bone_start_of(s, p, k)),
                e,
            )
    } else {
        e is InvalidInput
    }
}

/// Whether some bone of the bones section at `p` has parent offset 0 (is a root).
pub open spec fn skeleton_has_root(s: Seq<u8>, p: int) -> bool {
    exists|k: int| 1 <= k <= u32_be(s, p + 4) && i32_be(s, #[trigger] bone_start_of(s, p, k) + 92) == 0
}

/// Reads the bones section at the position of `reader` and builds the skeleton of its
/// bones (see [`build_skeleton_tree`]); the returned body has the root bone as its
/// only child. The root bone's node gets no parent node. Fails where an entry or its
/// bone record cannot be read, where a parent cannot be resolved, or where no bone is
/// a root.
pub fn deserialize_skeleton(
    reader: &mut RefCursor,
    parent_id: VirtualNodeId,
    node_map: &mut VirtualNodeMap,
) -> (r: EditorResult<VirtualNodeBody>)
    ensures
        final(reader).bytes() == old(reader).bytes(),
        old(node_map).extends(&*final(node_map)),
        !skeleton_entries_ok(old(reader).bytes(), old(reader).pos()) ==> *final(node_map) == *old(node_map),
        skeleton_entries_ok(old(reader).bytes(), old(reader).pos()) ==> final(node_map).slots().len()
            == old(node_map).slots().len() + u32_be(old(reader).bytes(), old(reader).pos() + 4),
        ({
            let s = old(reader).bytes();
            let p = old(reader).pos();
            let base = old(node_map).slots().len() as int;
            match r {
                Ok(body) => {
                    &&& skeleton_entries_ok(s, p)
                    &&& skeleton_parents_ok(s, p)
                    &&& skeleton_has_root(s, p)
                    &&& body.inspectable is None
                    &&& body.children@.len() == 1
                    &&& final(node_map).slots().len() == base + u32_be(s, p + 4)
                    &&& base < body.children@[0].value() <= base + u32_be(s, p + 4)
                    &&& final(node_map).node(body.children@[0]) matches Some(n) && n.parent is None
                        && n.label@ == entry_name(
                        s,
                        p as u32,
                        entries_at(s, p + 8, (u32_be(s, p + 4) + 1) as nat)[body.children@[0].value() - base],
                    )
                    &&& skeleton_built(&*final(node_map), base, s, p)
                },
                Err(e) => (!skeleton_entries_ok(s, p) || !skeleton_parents_ok(s, p) || !skeleton_has_root(s, p))
                    && skeleton_error(s, p, e),
            }
        }),
{
    let ghost s = reader.bytes();
    let ghost p = reader.pos();
    let section_index = IndexGroup::deserialize(reader)?;
    let mut bones: Vec<NamedBone> = Vec::new();
    let count = section_index.entries.len();
    let mut k: usize = 1;
    while k < count
        invariant
            reader.bytes() == s,
            s == old(reader).bytes(),
            p == old(reader).pos(),
            count == section_index.entries@.len(),
            count == u32_be(s, p + 4) + 1,
            section_index.group_start == p as u32,
            section_index.entries@ == entries_at(s, p + 8, count as nat),
            can_read(s, p, index_group_size(s, p)),
            1 <= k <= count,
            bones@.len() == k - 1,
            forall|j: int|
                1 <= j < k ==> {
                    &&& entry_name_ok(s, p as u32, #[trigger] section_index.entries@[j])
                    &&& (p as u32) + section_index.entries@[j].data_pointer <= u32::MAX
                    &&& bone_record_ok(s, (p as u32) + section_index.entries@[j].data_pointer)
                    &&& bones@[j - 1].name@ == entry_name(s, p as u32, section_index.entries@[j])
                    &&& bone_is(s, (p as u32) + section_index.entries@[j].data_pointer, bones@[j - 1].bone)
                },
        decreases count - k,
    {
        let entry = &section_index.entries[k];
        let ghost ek = entries_at(s, p + 8, (u32_be(s, p + 4) + 1) as nat)[k as int];
        proof {
            assert(ek == *entry);
        }
        let name = match section_index.get_entry_name(reader, entry) {
            Ok(v) => v,
            Err(e) => {
                assert(!entry_name_ok(s, p as u32, ek));
                assert(!skeleton_entries_ok(s, p));
                proof {
                    lemma_first_entry_failure(s, p, section_index.entries@, k as int);
                }
                assert(!skeleton_entry_ok(s, p, k as int) && skeleton_entry_error(s, p, k as int, e));
                return Err(e);
            },
        };
        let data_start = match section_index.checked_entry_data_start(entry) {
            Ok(v) => v,
            Err(e) => {
                assert(!((p as u32) + ek.data_pointer <= u32::MAX));
                assert(!skeleton_entries_ok(s, p));
                proof {
                    lemma_first_entry_failure(s, p, section_index.entries@, k as int);
                }
                assert(!skeleton_entry_ok(s, p, k as int) && skeleton_entry_error(s, p, k as int, e));
                return Err(e);
            },
        };
        reader.set_position(data_start as u64);
        let bone = match Bone::deserialize(reader) {
            Ok(b) => b,
            Err(e) => {
                assert(!bone_record_ok(s, (p as u32) + ek.data_pointer));
                assert(!skeleton_entries_ok(s, p));
                proof {
                    lemma_first_entry_failure(s, p, section_index.entries@, k as int);
                }
                assert(!skeleton_entry_ok(s, p, k as int) && skeleton_entry_error(s, p, k as int, e));
                return Err(e);
            },
        };
        bones.push(NamedBone { name, bone });
        k = k + 1;
    }
    proof {
        let n = u32_be(s, p + 4);
        let entries = entries_at(s, p + 8, (n + 1) as nat);
        assert forall|k: int| 1 <= k <= n implies {
            &&& entry_name_ok(s, p as u32, #[trigger] entries[k])
            &&& (p as u32) + entries[k].data_pointer <= u32::MAX
            &&& bone_record_ok(s, (p as u32) + entries[k].data_pointer)
        } by {
            assert(entries[k] == section_index.entries@[k]);
        }
        assert(skeleton_entries_ok(s, p));
        lemma_skeleton_parents(s, p, bones@);
    }
    let root = match build_skeleton_tree(reader, &bones, parent_id, node_map) {
        Ok(root) => root,
        Err(e) => {
            proof {
                lemma_no_root(s, p, bones@, bones@.len());
                assert forall|j: int| 0 <= j < bones@.len() implies parent_index_pos(bones@[j].bone) == parent_pos_of(
                    s,
                    bone_start_of(s, p, j + 1),
                ) && (#[trigger] parent_ok(s, bones@, j) <==> skeleton_parent_ok(s, p, j + 1)) by {
                    lemma_parent_ok_at(s, p, bones@, j);
                }
                if !parents_ok(s, bones@) {
                    let j = choose|j: int|
                        0 <= j < bones@.len() && (forall|i: int| 0 <= i < j ==> #[trigger] parent_ok(s, bones@, i))
                            && !#[trigger] parent_ok(s, bones@, j) && parent_error(
                            s,
                            parent_index_pos(bones@[j].bone),
                            e,
                        );
                    assert forall|i: int| 1 <= i < j + 1 implies #[trigger] skeleton_parent_ok(s, p, i) by {
                        assert(parent_ok(s, bones@, i - 1));
                    }
                    assert(!skeleton_parent_ok(s, p, j + 1));
                }
            }
            return Err(e);
        },
    };
    proof {
        let base = old(node_map).slots().len() as int;
        let ri = last_root(bones@, bones@.len())->0;
        lemma_last_root_bounds(bones@, bones@.len());
        assert(bone_node_ok(&*node_map, base, s, bones@, ri));
        assert(node_map.node(root) == node_map.slots()[base + ri]);
        assert(section_index.entries@[ri + 1] == entries_at(s, p + 8, (u32_be(s, p + 4) + 1) as nat)[ri + 1]);
        assert(bones@[ri].name@ == entry_name(s, p as u32, section_index.entries@[ri + 1]));
        assert(root.value() - base == ri + 1);
        assert(bone_start_of(s, p, ri + 1) == (p as u32) + section_index.entries@[ri + 1].data_pointer);
        assert(skeleton_has_root(s, p));
        assert forall|j: int| 0 <= j < bones@.len() implies #[trigger] bones@[j].name@ == entry_name(
            s,
            p as u32,
            entries_at(s, p + 8, (u32_be(s, p + 4) + 1) as nat)[j + 1],
        ) by {
            assert(section_index.entries@[j + 1] == entries_at(s, p + 8, (u32_be(s, p + 4) + 1) as nat)[j + 1]);
        }
        assert(bones_from_section(s, p, bones@));
        assert(skeleton_built(&*node_map, base, s, p));
    }
    let mut children: Vec<VirtualNodeId> = Vec::new();
    children.push(root);
    Ok(VirtualNodeBody { inspectable: None, children })
}

/// Whether `map` holds, from slot `base` on, the skeleton of the bones section at `p`:
/// the node of bone `j` (read from entry `j + 1`, named by it) as [`bone_node_ok`] says.
pub open spec fn skeleton_built(map: &VirtualNodeMap, base: int, s: Seq<u8>, p: int) -> bool {
    exists|bones: Seq<NamedBone>|
        #![trigger bones_from_section(s, p, bones)]
        bones_from_section(s, p, bones) && (forall|j: int|
            0 <= j < bones.len() ==> #[trigger] bones[j].name@ == entry_name(
                s,
                p as u32,
                entries_at(s, p + 8, (u32_be(s, p + 4) + 1) as nat)[j + 1],
            )) && (forall|i: int| 0 <= i < bones.len() ==> #[trigger] bone_node_ok(map, base, s, bones, i))
}

/// The bones read from the bones section at `p`, bone `j` from entry `j + 1`.
pub open spec fn bones_from_section(s: Seq<u8>, p: int, bones: Seq<NamedBone>) -> bool {
    &&& bones.len() == u32_be(s, p + 4)
    &&& forall|j: int|
        0 <= j < bones.len() ==> {
            &&& bone_start_of(s, p, j + 1) <= u32::MAX
            &&& bone_is(s, bone_start_of(s, p, j + 1), #[trigger] bones[j].bone)
        }
}

/// The parents of the bones of a section resolve exactly where the parents of the
/// section's bones do.
proof fn lemma_skeleton_parents(s: Seq<u8>, p: int, bones: Seq<NamedBone>)
    requires
        bones_from_section(s, p, bones),
    ensures
        parents_ok(s, bones) <==> skeleton_parents_ok(s, p),
{
    let n = u32_be(s, p + 4);
    assert forall|j: int| 0 <= j < bones.len() implies #[trigger] parent_index_pos(bones[j].bone)
        == parent_pos_of(s, bone_start_of(s, p, j + 1)) && bones[j].bone.parent_offset == i32_be(
        s,
        bone_start_of(s, p, j + 1) + 92,
    ) by {
        assert(bone_is(s, bone_start_of(s, p, j + 1), bones[j].bone));
    }
    if parents_ok(s, bones) {
        assert forall|k: int|
            1 <= k <= n && i32_be(s, #[trigger] bone_start_of(s, p, k) + 92) != 0 implies {
            let pos = parent_pos_of(s, bone_start_of(s, p, k));
            &&& pos <= u64::MAX
            &&& can_read(s, pos, 4)
            &&& u32_be(s, pos) != k - 1
            &&& u32_be(s, pos) < n
        } by {
            assert(parent_index_pos(bones[k - 1].bone) == parent_pos_of(s, bone_start_of(s, p, k)));
        }
    }
    if skeleton_parents_ok(s, p) {
        assert forall|j: int| 0 <= j < bones.len() && bones[j].bone.parent_offset != 0 implies {
            &&& parent_index_pos(#[trigger] bones[j].bone) <= u64::MAX
            &&& can_read(s, parent_index_pos(bones[j].bone), 4)
            &&& u32_be(s, parent_index_pos(bones[j].bone)) != j
            &&& u32_be(s, parent_index_pos(bones[j].bone)) < bones.len()
        } by {
            assert(parent_index_pos(bones[j].bone) == parent_pos_of(s, bone_start_of(s, p, j + 1)));
            assert(i32_be(s, bone_start_of(s, p, j + 1) + 92) != 0);
        }
    }
}

/// Entries before `k` of a bones section, read as `entries`, can be read where the
/// reading loop read them.
proof fn lemma_first_entry_failure(s: Seq<u8>, p: int, entries: Seq<IndexGroupEntry>, k: int)
    requires
        entries == entries_at(s, p + 8, (u32_be(s, p + 4) + 1) as nat),
        1 <= k <= u32_be(s, p + 4),
        forall|j: int|
            1 <= j < k ==> {
                &&& entry_name_ok(s, p as u32, #[trigger] entries[j])
                &&& (p as u32) + entries[j].data_pointer <= u32::MAX
                &&& bone_record_ok(s, (p as u32) + entries[j].data_pointer)
            },
    ensures
        forall|j: int| 1 <= j < k ==> #[trigger] skeleton_entry_ok(s, p, j),
{
    assert forall|j: int| 1 <= j < k implies #[trigger] skeleton_entry_ok(s, p, j) by {
        assert(entries[j] == entries_at(s, p + 8, (u32_be(s, p + 4) + 1) as nat)[j]);
    }
}

/// The parent of bone `j` read from a bones section can be resolved exactly where that
/// of the bone of entry `j + 1` can, and its index field is at the same position.
proof fn lemma_parent_ok_at(s: Seq<u8>, p: int, bones: Seq<NamedBone>, j: int)
    requires
        bones_from_section(s, p, bones),
        0 <= j < bones.len(),
    ensures
        parent_index_pos(bones[j].bone) == parent_pos_of(s, bone_start_of(s, p, j + 1)),
        parent_ok(s, bones, j) <==> skeleton_parent_ok(s, p, j + 1),
{
    assert(bone_is(s, bone_start_of(s, p, j + 1), bones[j].bone));
}

/// Where none of the first `m` bones of a section is a root, no bone record among the
/// first `m` entries has parent offset 0.
proof fn lemma_no_root(s: Seq<u8>, p: int, bones: Seq<NamedBone>, m: nat)
    requires
        bones_from_section(s, p, bones),
        m <= bones.len(),
    ensures
        last_root(bones, m) is None <==> forall|k: int|
            1 <= k <= m ==> i32_be(s, #[trigger] bone_start_of(s, p, k) + 92) != 0,
    decreases m,
{
    if m > 0 {
        lemma_no_root(s, p, bones, (m - 1) as nat);
        assert(bone_is(s, bone_start_of(s, p, m as int), bones[m - 1].bone));
    }
}

proof fn lemma_last_root_bounds(bones: Seq<NamedBone>, m: nat)
    requires
        m <= bones.len(),
    ensures
        last_root(bones, m) matches Some(i) ==> 0 <= i < m && bones[i].bone.parent_offset == 0,
    decreases m,
{
    if m > 0 {
        lemma_last_root_bounds(bones, (m - 1) as nat);
    }
}

} // verus!
