//! The bytecode (definitions) section of MDL0 models: commands that map bones to
//! matrices, blend weights and draw objects.
use vstd::prelude::*;

use crate::error::{corrupted, EditorError, EditorResult};
use crate::format::encoding::Deserialize;
use crate::shared::util::{can_read, fixed_read, u16_be, u32_be, RefCursor};

use crate::format::mdl0::section::{deserialize_entries, EntryKind};
use crate::node::node::VirtualNodeBody;
use crate::node::refs::{VirtualNodeId, VirtualNodeMap};
verus! {

/// The opcodes of the commands in the bytecode section.
#[derive(Debug, Copy, Clone, PartialEq, Eq, Structural)]
pub enum DefinitionOpCodeId {
    Nop,
    End,
    MapNode,
    /// Also referred to as `NodeMix`.
    Weights,
    Draw,
    WeightIndex,
    DuplicateMatrix,
}

/// The opcode with code `b` (0 to 6).
pub open spec fn opcode_of(b: u8) -> DefinitionOpCodeId {
    if b == 0 {
        DefinitionOpCodeId::Nop
    } else if b == 1 {
        DefinitionOpCodeId::End
    } else if b == 2 {
        DefinitionOpCodeId::MapNode
    } else if b == 3 {
        DefinitionOpCodeId::Weights
    } else if b == 4 {
        DefinitionOpCodeId::Draw
    } else if b == 5 {
        DefinitionOpCodeId::WeightIndex
    } else {
        DefinitionOpCodeId::DuplicateMatrix
    }
}

/// The codes that the file format assigns: each code stated here names the value
/// beside it, and every code not listed gives the value of the last line.
pub proof fn lemma_opcode_codes()
    ensures
        opcode_of(0) == DefinitionOpCodeId::Nop,
        opcode_of(1) == DefinitionOpCodeId::End,
        opcode_of(2) == DefinitionOpCodeId::MapNode,
        opcode_of(3) == DefinitionOpCodeId::Weights,
        opcode_of(4) == DefinitionOpCodeId::Draw,
        opcode_of(5) == DefinitionOpCodeId::WeightIndex,
        opcode_of(6) == DefinitionOpCodeId::DuplicateMatrix,
        forall|b: u8| !(b == 0 || b == 1 || b == 2 || b == 3 || b == 4 || b == 5) ==> #[trigger] opcode_of(b) == DefinitionOpCodeId::DuplicateMatrix,
{
}

impl DefinitionOpCodeId {
    /// The opcode with code `b`, if `b` is one (0 to 6).
    pub fn from_repr(b: u8) -> (r: Option<Self>)
        ensures
            match r {
                Some(o) => b <= 6 && o == opcode_of(b),
                None => b > 6,
            },
    {
        match b {
            0 => Some(DefinitionOpCodeId::Nop),
            1 => Some(DefinitionOpCodeId::End),
            2 => Some(DefinitionOpCodeId::MapNode),
            3 => Some(DefinitionOpCodeId::Weights),
            4 => Some(DefinitionOpCodeId::Draw),
            5 => Some(DefinitionOpCodeId::WeightIndex),
            6 => Some(DefinitionOpCodeId::DuplicateMatrix),
            _ => None,
        }
    }
}

/// Maps a bone index to a matrix index.
#[derive(Debug, Copy, Clone, PartialEq, Eq)]
pub struct MapNode {
    pub bone_index: u16,
    pub matrix_index: u16,
}

impl Deserialize for MapNode {
    fn deserialize(reader: &mut RefCursor) -> (r: EditorResult<Self>)
        ensures
            final(reader).bytes() == old(reader).bytes(),
            fixed_read(
                r,
                old(reader).bytes(),
                old(reader).pos(),
                4,
                MapNode {
                    bone_index: u16_be(old(reader).bytes(), old(reader).pos()),
                    matrix_index: u16_be(old(reader).bytes(), old(reader).pos() + 2),
                },
                final(reader).pos(),
            ),
    {
        let bone_index = reader.read_u16()?;
        let matrix_index = reader.read_u16()?;
        Ok(MapNode { bone_index, matrix_index })
    }
}

/// The influence of one bone.
#[derive(Debug, Copy, Clone, PartialEq, Eq)]
pub struct Weight {
    pub bone_id: u16,
    /// Bits of the single-precision weight.
    pub weight: u32,
}

/// The weight stored at `q` of `s`.
pub open spec fn weight_at(s: Seq<u8>, q: int) -> Weight {
    Weight { bone_id: u16_be(s, q), weight: u32_be(s, q + 2) }
}

/// Where each field of the value lies: the bytes (or bits) it is read from.
pub proof fn lemma_weight_layout(s: Seq<u8>, q: int)
    ensures
        weight_at(s, q).bone_id == (u16_be(s, q)),
        weight_at(s, q).weight == (u32_be(s, q + 2)),
{
}

impl Deserialize for Weight {
    fn deserialize(reader: &mut RefCursor) -> (r: EditorResult<Self>)
        ensures
            final(reader).bytes() == old(reader).bytes(),
            fixed_read(
                r,
                old(reader).bytes(),
                old(reader).pos(),
                6,
                weight_at(old(reader).bytes(), old(reader).pos()),
                final(reader).pos(),
            ),
    {
        let bone_id = reader.read_u16()?;
        let weight = reader.read_u32()?;
        Ok(Weight { bone_id, weight })
    }
}

/// A matrix blended from several bones.
pub struct Weights {
    pub weight_id: u16,
    pub weights: Vec<Weight>,
}

/// Size of the weights record at `q`: its header and six bytes per weight.
pub open spec fn weights_size(s: Seq<u8>, q: int) -> int {
    3 + 6 * s[q + 2]
}

/// Whether `w` is the weights record stored at `q` of `s`.
pub open spec fn weights_is(s: Seq<u8>, q: int, w: Weights) -> bool {
    &&& w.weight_id == u16_be(s, q)
    &&& w.weights@.len() == s[q + 2]
    &&& forall|i: int| 0 <= i < s[q + 2] ==> #[trigger] w.weights@[i] == weight_at(s, q + 3 + 6 * i)
}

/// Where each field of the value lies: the bytes it is read from.
pub proof fn lemma_weights_layout(s: Seq<u8>, q: int, w: Weights)
    requires
        weights_is(s, q, w),
    ensures
        (w.weight_id == u16_be(s, q)),
        (w.weights@.len() == s[q + 2]),
        (forall|i: int| 0 <= i < s[q + 2] ==> #[trigger] w.weights@[i] == weight_at(s, q + 3 + 6 * i)),
{
}

impl Deserialize for Weights {
    fn deserialize(reader: &mut RefCursor) -> (r: EditorResult<Self>)
        ensures
            final(reader).bytes() == old(reader).bytes(),
            ({
                let s = old(reader).bytes();
                let p = old(reader).pos();
                match r {
                    Ok(w) => can_read(s, p, 3) && can_read(s, p, weights_size(s, p)) && weights_is(s, p, w)
                        && final(reader).pos() == p + weights_size(s, p),
                    Err(e) => !(can_read(s, p, 3) && can_read(s, p, weights_size(s, p))) && e is IoError,
                }
            }),
    {
        let ghost s = reader.bytes();
        let ghost p = reader.pos();
        let weight_id = reader.read_u16()?;
        let weight_count = reader.read_u8()?;
        let mut weights: Vec<Weight> = Vec::new();
        let mut i: u8 = 0;
        while i < weight_count
            invariant
                reader.bytes() == s,
                s == old(reader).bytes(),
                p == old(reader).pos(),
                can_read(s, p, 3),
                weight_count == s[p + 2],
                i <= weight_count,
                can_read(s, p, 3 + 6 * i),
                reader.pos() == p + 3 + 6 * i,
                weights@.len() == i,
                forall|j: int| 0 <= j < i ==> #[trigger] weights@[j] == weight_at(s, p + 3 + 6 * j),
            decreases weight_count - i,
        {
            let w = Weight::deserialize(reader)?;
            weights.push(w);
            i = i + 1;
        }
        Ok(Weights { weight_id, weights })
    }
}

/// Draws an object with a material.
#[derive(Debug, Copy, Clone, PartialEq, Eq)]
pub struct Draw {
    pub material_index: u16,
    pub object_index: u16,
    pub bone_index: u16,
    pub z_index: u8,
}

/// The draw record stored at `q` of `s`.
pub open spec fn draw_at(s: Seq<u8>, q: int) -> Draw {
    Draw {
        material_index: u16_be(s, q),
        object_index: u16_be(s, q + 2),
        bone_index: u16_be(s, q + 4),
        z_index: s[q + 6],
    }
}

/// Where each field of the value lies: the bytes (or bits) it is read from.
pub proof fn lemma_draw_layout(s: Seq<u8>, q: int)
    ensures
        draw_at(s, q).material_index == (u16_be(s, q)),
        draw_at(s, q).object_index == (u16_be(s, q + 2)),
        draw_at(s, q).bone_index == (u16_be(s, q + 4)),
        draw_at(s, q).z_index == (s[q + 6]),
{
}

impl Deserialize for Draw {
    fn deserialize(reader: &mut RefCursor) -> (r: EditorResult<Self>)
        ensures
            final(reader).bytes() == old(reader).bytes(),
            fixed_read(r, old(reader).bytes(), old(reader).pos(), 7, draw_at(old(reader).bytes(), old(reader).pos()), final(reader).pos()),
    {
        let material_index = reader.read_u16()?;
        let object_index = reader.read_u16()?;
        let bone_index = reader.read_u16()?;
        let priority = reader.read_u8()?;
        Ok(Draw { material_index, object_index, bone_index, z_index: priority })
    }
}

/// Assigns a blended matrix to a matrix slot.
#[derive(Debug, Copy, Clone, PartialEq, Eq)]
pub struct WeightIndex {
    pub matrix_id: u16,
    pub weight_index: u16,
}

impl Deserialize for WeightIndex {
    fn deserialize(reader: &mut RefCursor) -> (r: EditorResult<Self>)
        ensures
            final(reader).bytes() == old(reader).bytes(),
            fixed_read(
                r,
                old(reader).bytes(),
                old(reader).pos(),
                4,
                WeightIndex {
                    matrix_id: u16_be(old(reader).bytes(), old(reader).pos()),
                    weight_index: u16_be(old(reader).bytes(), old(reader).pos() + 2),
                },
                final(reader).pos(),
            ),
    {
        let matrix_id = reader.read_u16()?;
        let weight_index = reader.read_u16()?;
        Ok(WeightIndex { matrix_id, weight_index })
    }
}

/// Copies matrix `src` to `dest`.
#[derive(Debug, Copy, Clone, PartialEq, Eq)]
pub struct DuplicateMatrix {
    pub dest: u16,
    pub src: u16,
}

impl Deserialize for DuplicateMatrix {
    fn deserialize(reader: &mut RefCursor) -> (r: EditorResult<Self>)
        ensures
            final(reader).bytes() == old(reader).bytes(),
            fixed_read(
                r,
                old(reader).bytes(),
                old(reader).pos(),
                4,
                DuplicateMatrix {
                    dest: u16_be(old(reader).bytes(), old(reader).pos()),
                    src: u16_be(old(reader).bytes(), old(reader).pos() + 2),
                },
                final(reader).pos(),
            ),
    {
        let dest = reader.read_u16()?;
        let src = reader.read_u16()?;
        Ok(DuplicateMatrix { dest, src })
    }
}

/// A command of the bytecode section.
pub enum BytecodeCommand {
    MapNode(MapNode),
    Weights(Weights),
    Draw(Draw),
    WeightIndex(WeightIndex),
    DuplicateMatrix(DuplicateMatrix),
}

/// A list of bytecode commands, up to (not including) the `End` command.
pub struct Bytecode {
    pub commands: Vec<BytecodeCommand>,
}

/// Number of bytes of the command whose opcode is at `q`, the opcode included; zero
/// for `End` and for bytes that are no opcode.
pub open spec fn command_size(s: Seq<u8>, q: int) -> int {
    let b = s[q];
    if b == 0 {
        1
    } else if b == 2 || b == 5 || b == 6 {
        5
    } else if b == 3 {
        if can_read(s, q, 4) {
            4 + 6 * s[q + 3]
        } else {
            4
        }
    } else if b == 4 {
        8
    } else {
        0
    }
}

/// Positions of the commands other than `Nop` from `q` up to the first `End`; none
/// where a byte is no opcode or the bytes end first.
pub open spec fn command_starts(s: Seq<u8>, q: int) -> Option<Seq<int>>
    decreases s.len() - q,
{
    if !(0 <= q < s.len()) {
        None
    } else if s[q] == 1 {
        Some(Seq::empty())
    } else if s[q] > 6 || !can_read(s, q, command_size(s, q)) {
        None
    } else if s[q] == 0 {
        command_starts(s, q + 1)
    } else {
        match command_starts(s, q + command_size(s, q)) {
            Some(rest) => Some(seq![q].add(rest)),
            None => None,
        }
    }
}

/// Whether `c` is the command whose opcode is at `q` of `s`.
pub open spec fn command_is(s: Seq<u8>, q: int, c: BytecodeCommand) -> bool {
    let b = s[q];
    match c {
        BytecodeCommand::MapNode(m) => b == 2 && m == MapNode {
            bone_index: u16_be(s, q + 1),
            matrix_index: u16_be(s, q + 3),
        },
        BytecodeCommand::Weights(w) => b == 3 && weights_is(s, q + 1, w),
        BytecodeCommand::Draw(d) => b == 4 && d == draw_at(s, q + 1),
        BytecodeCommand::WeightIndex(w) => b == 5 && w == WeightIndex {
            matrix_id: u16_be(s, q + 1),
            weight_index: u16_be(s, q + 3),
        },
        BytecodeCommand::DuplicateMatrix(d) => b == 6 && d == DuplicateMatrix {
            dest: u16_be(s, q + 1),
            src: u16_be(s, q + 3),
        },
    }
}

/// Whether `e` is the error that reading bytecode from `q` of `s` gives where it cannot
/// be read: a corruption error for the first byte that is no opcode, or the end of the
/// input within the first command that it cuts off.
pub open spec fn bytecode_error(s: Seq<u8>, q: int, e: EditorError) -> bool
    decreases s.len() - q,
{
    if !(0 <= q < s.len()) {
        e is IoError
    } else if s[q] == 1 {
        false
    } else if s[q] > 6 {
        e is Corrupted
    } else if !can_read(s, q, command_size(s, q)) {
        e is IoError
    } else if s[q] == 0 {
        bytecode_error(s, q + 1, e)
    } else {
        bytecode_error(s, q + command_size(s, q), e)
    }
}

/// Position just after the `End` opcode that ends the bytecode read from `q`, where it
/// can be read.
pub open spec fn bytecode_end(s: Seq<u8>, q: int) -> int
    decreases s.len() - q,
{
    if !(0 <= q < s.len()) {
        q
    } else if s[q] == 1 {
        q + 1
    } else if s[q] > 6 || !can_read(s, q, command_size(s, q)) {
        q
    } else if s[q] == 0 {
        bytecode_end(s, q + 1)
    } else {
        bytecode_end(s, q + command_size(s, q))
    }
}

/// Where reading bytecode from `q` succeeds.
pub open spec fn bytecode_ok(s: Seq<u8>, q: int) -> bool {
    command_starts(s, q) is Some
}

/// Whether `b` is the bytecode stored from `q` of `s` on.
pub open spec fn bytecode_is(s: Seq<u8>, q: int, b: Bytecode) -> bool {
    let st = command_starts(s, q)->0;
    &&& b.commands@.len() == st.len()
    &&& forall|k: int| 0 <= k < st.len() ==> command_is(s, st[k], #[trigger] b.commands@[k])
}

impl Bytecode {
    /// Reads an opcode.
    pub fn read_opcode_id(reader: &mut RefCursor) -> (r: EditorResult<DefinitionOpCodeId>)
        ensures
            final(reader).bytes() == old(reader).bytes(),
            ({
                let s = old(reader).bytes();
                let p = old(reader).pos();
                match r {
                    Ok(o) => can_read(s, p, 1) && s[p] <= 6 && o == opcode_of(s[p]) && final(reader).pos()
                        == p + 1,
                    Err(e) => if can_read(s, p, 1) {
                        s[p] > 6 && e is Corrupted
                    } else {
                        e is IoError
                    },
                }
            }),
    {
        let byte = reader.read_u8()?;
        match DefinitionOpCodeId::from_repr(byte) {
            Some(o) => Ok(o),
            None => Err(corrupted("invalid definition opcode ID".to_owned(), Some(reader.position()))),
        }
    }
}

impl Deserialize for Bytecode {
    fn deserialize(reader: &mut RefCursor) -> (r: EditorResult<Self>)
        ensures
            final(reader).bytes() == old(reader).bytes(),
            ({
                let s = old(reader).bytes();
                let p = old(reader).pos();
                match r {
                    Ok(b) => bytecode_ok(s, p) && bytecode_is(s, p, b) && final(reader).pos() == bytecode_end(s, p),
                    Err(e) => !bytecode_ok(s, p) && bytecode_error(s, p, e),
                }
            }),
    {
        let ghost s = reader.bytes();
        let ghost p = reader.pos();
        let mut commands: Vec<BytecodeCommand> = Vec::new();
        let ghost mut done: Seq<int> = Seq::empty();
        let mut opcode = Self::read_opcode_id(reader)?;
        let mut at: u64 = reader.position() - 1;
        while opcode != DefinitionOpCodeId::End
            invariant
                reader.bytes() == s,
                s == old(reader).bytes(),
                p == old(reader).pos(),
                can_read(s, at as int, 1),
                s[at as int] <= 6,
                opcode == opcode_of(s[at as int]),
                reader.pos() == at + 1,
                commands@.len() == done.len(),
                forall|k: int| 0 <= k < done.len() ==> command_is(s, done[k], #[trigger] commands@[k]),
                command_starts(s, p) == match command_starts(s, at as int) {
                    Some(rest) => Some(done.add(rest)),
                    None => None::<Seq<int>>,
                },
                forall|e: EditorError| #[trigger] bytecode_error(s, at as int, e) ==> bytecode_error(s, p, e),
                bytecode_end(s, p) == bytecode_end(s, at as int),
            decreases s.len() - at,
        {
            let ghost q = at as int;
            let ghost before = done;
            let ghost n_before = commands@.len();
            let command = match opcode {
                DefinitionOpCodeId::Nop => {
                    let next_at = reader.position();
                    let next = Self::read_opcode_id(reader);
                    proof {
                        assert forall|e: EditorError| #[trigger] bytecode_error(s, q + 1, e) implies bytecode_error(
                            s,
                            p,
                            e,
                        ) by {
                            assert(bytecode_error(s, q, e));
                        }
                    }
                    match next {
                        Ok(o) => {
                            opcode = o;
                            at = next_at;
                            continue;
                        },
                        Err(e) => {
                            assert(command_starts(s, q + 1) is None);
                            assert(bytecode_error(s, q + 1, e));
                            return Err(e);
                        },
                    }
                },
                DefinitionOpCodeId::MapNode => {
                    match MapNode::deserialize(reader) {
                        Ok(m) => BytecodeCommand::MapNode(m),
                        Err(e) => {
                            assert(command_starts(s, q) is None);
                            assert(bytecode_error(s, q, e));
                            return Err(e);
                        },
                    }
                },
                DefinitionOpCodeId::Weights => {
                    match Weights::deserialize(reader) {
                        Ok(w) => BytecodeCommand::Weights(w),
                        Err(e) => {
                            assert(command_starts(s, q) is None);
                            assert(bytecode_error(s, q, e));
                            return Err(e);
                        },
                    }
                },
                DefinitionOpCodeId::Draw => {
                    match Draw::deserialize(reader) {
                        Ok(d) => BytecodeCommand::Draw(d),
                        Err(e) => {
                            assert(command_starts(s, q) is None);
                            assert(bytecode_error(s, q, e));
                            return Err(e);
                        },
                    }
                },
                DefinitionOpCodeId::WeightIndex => {
                    match WeightIndex::deserialize(reader) {
                        Ok(w) => BytecodeCommand::WeightIndex(w),
                        Err(e) => {
                            assert(command_starts(s, q) is None);
                            assert(bytecode_error(s, q, e));
                            return Err(e);
                        },
                    }
                },
                _ => {
                    match DuplicateMatrix::deserialize(reader) {
                        Ok(d) => BytecodeCommand::DuplicateMatrix(d),
                        Err(e) => {
                            assert(command_starts(s, q) is None);
                            assert(bytecode_error(s, q, e));
                            return Err(e);
                        },
                    }
                },
            };
            assert(reader.pos() == q + command_size(s, q));
            assert(command_is(s, q, command));
            commands.push(command);
            proof {
                done = done.push(q);
                assert forall|k: int| 0 <= k < done.len() implies command_is(s, done[k], #[trigger] commands@[k]) by {
                    if k < before.len() {
                        assert(commands@[k] == commands@.drop_last()[k]);
                    }
                }
                match command_starts(s, q + command_size(s, q)) {
                    Some(rest) => {
                        assert(before.add(seq![q].add(rest)) =~= done.add(rest));
                    },
                    None => {},
                }
            }
            proof {
                assert forall|e: EditorError| #[trigger] bytecode_error(s, q + command_size(s, q), e) implies bytecode_error(
                    s,
                    p,
                    e,
                ) by {
                    assert(bytecode_error(s, q, e));
                }
            }
            let next_at = reader.position();
            match Self::read_opcode_id(reader) {
                Ok(o) => {
                    opcode = o;
                    at = next_at;
                },
                Err(e) => {
                    assert(command_starts(s, q + command_size(s, q)) is None);
                    assert(bytecode_error(s, q + command_size(s, q), e));
                    return Err(e);
                },
            }
        }
        proof {
            assert(done.add(Seq::<int>::empty()) =~= done);
        }
        Ok(Bytecode { commands })
    }
}

/// Reads the section of bytecode lists at the position of `reader`: a node for each entry
/// of its index group, attached to `parent_id`.
pub fn deserialize_virtual(reader: &mut RefCursor, parent_id: VirtualNodeId, node_map: &mut VirtualNodeMap) -> (r: EditorResult<VirtualNodeBody>)
    ensures
        final(reader).bytes() == old(reader).bytes(),
        crate::format::mdl0::section::entries_result(
            old(reader).bytes(),
            old(reader).pos(),
            0,
            parent_id,
            EntryKind::Bytecode,
            &*old(node_map),
            &*final(node_map),
            r,
        ),
{
    deserialize_entries(reader, 0, parent_id, node_map, EntryKind::Bytecode)
}

} // verus!
