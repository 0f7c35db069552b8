//! The BRRES resource container: its header, the root subfile, index groups and the
//! header shared by all subfiles.
use vstd::prelude::*;

use crate::error::{
    corrupted, reason_with_value, unsupported, EditorError, EditorResult, IncorrectFormat,
    RangeError,
};
use crate::format::encoding::{
    magic_eq, magic_to_vec, Deserialize, ReadStringExt,
};
use crate::shared::util::{can_read, fixed_read, u16_be, u32_be, i32_be, RefCursor};
use vstd::utf8::{decode_utf8, valid_utf8};
use crate::format::chr0::CHR0_MAGIC;
use crate::format::mdl0::{self, MDL0_MAGIC};
use crate::inspector::raw::Raw;
use crate::node::defer::{Deferred, DeferredParse};
use crate::node::node::{NodeContents, VirtualNode, VirtualNodeBody, VirtualNodeKind};
use crate::node::refs::{attached, VirtualNodeId, VirtualNodeMap};

verus! {

/// Magic of a BRRES file ("bres").
pub const BRRES_MAGIC: [u8; 4] = [0x62, 0x72, 0x65, 0x73];

/// Byte order mark of a little-endian file.
const LE_BOM: [u8; 2] = [0xFF, 0xFE];

/// Byte order mark of a big-endian file.
const BE_BOM: [u8; 2] = [0xFE, 0xFF];

/// The four bytes at position `p` of `s`.
pub open spec fn magic_at(s: Seq<u8>, p: int) -> Seq<u8> {
    s.subrange(p, p + 4)
}

/// Whether `e` is the error for four bytes at `p` of `s` that are not the magic
/// `expected`: it names the magic expected, the one found and the position just after it.
pub open spec fn magic_mismatch(s: Seq<u8>, p: int, expected: Seq<u8>, e: EditorError) -> bool {
    e matches EditorError::IncorrectFormat { source } && source.expected_magic@ == expected
        && source.found_magic@ == magic_at(s, p) && source.location == Some((p + 4) as u64)
}

/// Reads four bytes and checks that they are `expected`.
pub fn expect_magic(reader: &mut RefCursor, expected: [u8; 4]) -> (r: EditorResult<()>)
    ensures
        final(reader).bytes() == old(reader).bytes(),
        ({
            let s = old(reader).bytes();
            let p = old(reader).pos();
            match r {
                Ok(_) => can_read(s, p, 4) && magic_at(s, p) == expected@ && final(reader).pos() == p
                    + 4,
                Err(e) => if !can_read(s, p, 4) {
                    e is IoError
                } else {
                    magic_at(s, p) != expected@ && magic_mismatch(s, p, expected@, e)
                },
            }
        }),
{
    let magic = reader.read_u8_array4()?;
    if !magic_eq(magic, expected) {
        return Err(
            EditorError::IncorrectFormat {
                source: IncorrectFormat {
                    expected_magic: magic_to_vec(expected),
                    found_magic: magic_to_vec(magic),
                    location: Some(reader.position()),
                },
            },
        );
    }
    Ok(())
}

/// The kinds of BRRES subfiles that this crate knows.
#[derive(Debug, Copy, Clone, PartialEq, Eq, PartialOrd, Ord)]
pub enum SubfileType {
    Root,
    Mdl0,
    Chr0,
    Pat0,
}

/// Number of section offsets in the header of a subfile of type `ty` and `version`,
/// where that combination is known.
pub open spec fn section_count(ty: SubfileType, version: u32) -> Option<usize> {
    match ty {
        SubfileType::Root => Some(0),
        SubfileType::Mdl0 => if version == 8 {
            Some(11)
        } else if version == 11 {
            Some(14)
        } else {
            None
        },
        SubfileType::Chr0 => if version == 5 {
            Some(2)
        } else {
            None
        },
        SubfileType::Pat0 => if version == 4 {
            Some(6)
        } else {
            None
        },
    }
}

/// The number of section offsets of each subfile kind and version this crate reads:
/// 11 for MDL0 version 8 and 14 for version 11, 2 for CHR0 version 5, 6 for PAT0
/// version 4, none for the root; other versions have none.
pub proof fn lemma_section_counts(version: u32)
    ensures
        section_count(SubfileType::Mdl0, 8) == Some(11usize),
        section_count(SubfileType::Mdl0, 11) == Some(14usize),
        section_count(SubfileType::Chr0, 5) == Some(2usize),
        section_count(SubfileType::Pat0, 4) == Some(6usize),
        section_count(SubfileType::Root, version) == Some(0usize),
        version != 8 && version != 11 ==> section_count(SubfileType::Mdl0, version) is None,
        version != 5 ==> section_count(SubfileType::Chr0, version) is None,
        version != 4 ==> section_count(SubfileType::Pat0, version) is None,
{
}

/// The error for a subfile of type `ty` and `version` whose section count is unknown:
/// version 3 of CHR0 is known but not supported; other unknown versions are corrupt.
pub open spec fn section_count_error(ty: SubfileType, version: u32, e: EditorError) -> bool {
    if ty == SubfileType::Chr0 && version == 3 {
        e is Unsupported
    } else {
        e is Corrupted
    }
}

/// Returns the amount of sections a subfile has, which depends on the subfile type and version.
///
/// Version 3 of CHR0 is known but not supported; other unknown versions are corrupt.
pub fn get_section_count(ty: SubfileType, version: u32) -> (r: EditorResult<usize>)
    ensures
        match r {
            Ok(n) => section_count(ty, version) == Some(n),
            Err(e) => section_count(ty, version) is None && section_count_error(ty, version, e),
        },
{
    match ty {
        SubfileType::Root => Ok(0),
        SubfileType::Mdl0 => {
            if version == 8 {
                Ok(11)
            } else if version == 11 {
                Ok(14)
            } else {
                Err(
                    corrupted(
                        reason_with_value(
                            "invalid MDL0 version: ",
                            version as u64,
                            " (must be 8, 11)",
                        ),
                        None,
                    ),
                )
            }
        },
        SubfileType::Chr0 => {
            if version == 3 {
                Err(unsupported("CHR0 version 3".to_owned(), None))
            } else if version == 5 {
                Ok(2)
            } else {
                Err(
                    corrupted(
                        reason_with_value(
                            "invalid CHR0 version: ",
                            version as u64,
                            " (must be 3, 5)",
                        ),
                        None,
                    ),
                )
            }
        },
        SubfileType::Pat0 => {
            if version == 4 {
                Ok(6)
            } else {
                Err(
                    corrupted(
                        reason_with_value("invalid PAT0 version: ", version as u64, " (must be 4)"),
                        None,
                    ),
                )
            }
        },
    }
}

/// The header of a BRRES file.
#[derive(Debug, Clone, PartialEq, Eq)]
pub struct Header {
    pub size: u32,
    pub root_offset: u16,
    pub section_count: u16,
}

/// Where reading a BRRES header at `p` succeeds: the magic is "bres" and the byte order
/// mark says big endian.
pub open spec fn brres_header_ok(s: Seq<u8>, p: int) -> bool {
    &&& can_read(s, p, 16)
    &&& magic_at(s, p) == BRRES_MAGIC@
    &&& s[p + 4] == 0xFE && s[p + 5] == 0xFF
}

/// Whether `e` is the error that reading a BRRES header at `p` gives where it cannot be
/// read: the end of the input, a wrong magic, an unsupported little-endian byte order
/// mark, or a corruption error for any other byte order mark.
pub open spec fn brres_header_error(s: Seq<u8>, p: int, e: EditorError) -> bool {
    if !can_read(s, p, 4) {
        e is IoError
    } else if magic_at(s, p) != BRRES_MAGIC@ {
        magic_mismatch(s, p, BRRES_MAGIC@, e)
    } else if !can_read(s, p, 6) {
        e is IoError
    } else if s[p + 4] == 0xFF && s[p + 5] == 0xFE {
        e is Unsupported
    } else if !(s[p + 4] == 0xFE && s[p + 5] == 0xFF) {
        e is Corrupted
    } else {
        e is IoError
    }
}

impl Deserialize for Header {
    fn deserialize(reader: &mut RefCursor) -> (r: EditorResult<Self>)
        ensures
            final(reader).bytes() == old(reader).bytes(),
            ({
                let s = old(reader).bytes();
                let p = old(reader).pos();
                match r {
                    Ok(h) => brres_header_ok(s, p) && h == (Header {
                        size: u32_be(s, p + 8),
                        root_offset: u16_be(s, p + 12),
                        section_count: u16_be(s, p + 14),
                    }) && final(reader).pos() == p + 16,
                    Err(e) => !brres_header_ok(s, p) && brres_header_error(s, p, e),
                }
            }),
    {
        expect_magic(reader, BRRES_MAGIC)?;
        let b0 = reader.read_u8()?;
        let b1 = reader.read_u8()?;
        let is_be = if b0 == BE_BOM[0] && b1 == BE_BOM[1] {
            true
        } else if b0 == LE_BOM[0] && b1 == LE_BOM[1] {
            false
        } else {
            return Err(
                corrupted(
                    "byte order mark is incorrect, expected FEFF or FFFE".to_owned(),
                    None,
                ),
            );
        };
        if !is_be {
            return Err(
                unsupported("little endian brres files are not supported".to_owned(), None),
            );
        }
        let _padding = reader.read_u16()?;
        let size = reader.read_u32()?;
        let root_offset = reader.read_u16()?;
        let section_count = reader.read_u16()?;
        Ok(Header { size, root_offset, section_count })
    }
}

/// The root subfile of a BRRES file, which holds the index group of its directories.
#[derive(Debug, Clone, PartialEq, Eq)]
pub struct RootSubfile {
    pub size: u32,
}

/// Magic of the root subfile ("root").
pub const ROOT_MAGIC: [u8; 4] = [0x72, 0x6f, 0x6f, 0x74];

impl Deserialize for RootSubfile {
    fn deserialize(reader: &mut RefCursor) -> (r: EditorResult<Self>)
        ensures
            final(reader).bytes() == old(reader).bytes(),
            ({
                let s = old(reader).bytes();
                let p = old(reader).pos();
                match r {
                    Ok(v) => can_read(s, p, 8) && magic_at(s, p) == ROOT_MAGIC@ && v == (RootSubfile {
                        size: u32_be(s, p + 4),
                    }) && final(reader).pos() == p + 8,
                    Err(e) => if can_read(s, p, 4) && magic_at(s, p) != ROOT_MAGIC@ {
                        magic_mismatch(s, p, ROOT_MAGIC@, e)
                    } else {
                        !can_read(s, p, 8) && e is IoError
                    },
                }
            }),
    {
        expect_magic(reader, ROOT_MAGIC)?;
        let size = reader.read_u32()?;
        Ok(RootSubfile { size })
    }
}

/// A kind of BRRES subfile, identified by its magic.
pub trait Subfile {
    fn magic() -> [u8; 4];
}

impl Subfile for RootSubfile {
    fn magic() -> (m: [u8; 4])
        ensures
            m == ROOT_MAGIC,
    {
        ROOT_MAGIC
    }
}

/// The header that all BRRES subfiles start with, after their magic.
#[derive(Debug, Clone, PartialEq, Eq)]
pub struct SubfileHeader {
    /// Start position of this header (the position of its magic). Section positions
    /// are computed from their offsets and this position.
    pub header_start: u32,
    /// Length of this subfile.
    pub subfile_length: u32,
    /// Version of ths subfile. For MDL0 this is either 8 or 11.
    pub subfile_version: u32,
    /// The offset to the outer BRRES file.
    pub brres_offset: i32,
    /// Offsets of the sections of this subfile; [`get_section_count`] gives how many.
    pub offsets: Vec<i32>,
    /// Offset, relative to `header_start`, of the name of this subfile.
    pub name_offset: i32,
}

/// The `n` big-endian `i32` values from position `p` of `s` on.
pub open spec fn i32s_at(s: Seq<u8>, p: int, n: nat) -> Seq<i32> {
    Seq::new(n, |i: int| i32_be(s, p + 4 * i))
}

/// Where reading a subfile header of type `ty` at position `p` (just after the
/// four bytes of its magic) succeeds.
pub open spec fn subfile_header_ok(s: Seq<u8>, p: int, ty: SubfileType) -> bool {
    &&& p >= 4
    &&& (p as u32) >= 4
    &&& can_read(s, p, 12)
    &&& section_count(ty, u32_be(s, p + 4)) matches Some(n) && can_read(s, p, 12 + 4 * n + 4)
}

/// Size of the subfile header at `p` (after the magic): three words, the section
/// offsets and the name offset.
pub open spec fn subfile_header_size(s: Seq<u8>, p: int, ty: SubfileType) -> int {
    16 + 4 * section_count(ty, u32_be(s, p + 4))->0
}

/// Whether `e` is the error that reading the subfile header of type `ty` at `p` gives
/// where it cannot be read: a corruption error for a header that would start before
/// its magic, the end of the input, or that of an unknown version (see
/// [`section_count_error`]).
pub open spec fn subfile_header_error(s: Seq<u8>, p: int, ty: SubfileType, e: EditorError) -> bool {
    if !((p as u32) >= 4) {
        e is Corrupted
    } else if !can_read(s, p, 12) {
        e is IoError
    } else if section_count(ty, u32_be(s, p + 4)) is None {
        section_count_error(ty, u32_be(s, p + 4), e)
    } else {
        e is IoError
    }
}

/// Whether `h` is the subfile header of type `ty` stored at `p` (after the magic).
pub open spec fn subfile_header_is(s: Seq<u8>, p: int, ty: SubfileType, h: SubfileHeader) -> bool {
    let n = section_count(ty, u32_be(s, p + 4))->0;
    &&& h.header_start == (p as u32) - 4
    &&& h.subfile_length == u32_be(s, p)
    &&& h.subfile_version == u32_be(s, p + 4)
    &&& h.brres_offset == i32_be(s, p + 8)
    &&& h.offsets@ == i32s_at(s, p + 12, n as nat)
    &&& h.name_offset == i32_be(s, p + 12 + 4 * n)
}

/// Where each field of the value lies: the bytes it is read from.
pub proof fn lemma_subfile_header_layout(s: Seq<u8>, p: int, ty: SubfileType, h: SubfileHeader)
    requires
        subfile_header_is(s, p, ty, h),
    ensures
        (h.header_start == (p as u32) - 4),
        (h.subfile_length == u32_be(s, p)),
        (h.subfile_version == u32_be(s, p + 4)),
        (h.brres_offset == i32_be(s, p + 8)),
        (h.offsets@ == i32s_at(s, p + 12, (section_count(ty, u32_be(s, p + 4))->0) as nat)),
        (h.name_offset == i32_be(s, p + 12 + 4 * (section_count(ty, u32_be(s, p + 4))->0))),
{
}

impl SubfileHeader {
    /// Reads the header of a subfile of type `ty`; the cursor must be just after the magic.
    pub fn deserialize(reader: &mut RefCursor, ty: SubfileType) -> (r: EditorResult<Self>)
        ensures
            final(reader).bytes() == old(reader).bytes(),
            ({
                let s = old(reader).bytes();
                let p = old(reader).pos();
                let n = section_count(ty, u32_be(s, p + 4));
                match r {
                    Ok(h) => subfile_header_ok(s, p, ty) && subfile_header_is(s, p, ty, h)
                        && final(reader).pos() == p + subfile_header_size(s, p, ty),
                    Err(e) => !subfile_header_ok(s, p, ty) && subfile_header_error(s, p, ty, e),
                }
            }),
    {
        let pos32 = reader.position() as u32;
        if pos32 < 4 {
            return Err(corrupted("subfile header starts before its magic".to_owned(), None));
        }
        let header_start = pos32 - 4;
        let subfile_length = reader.read_u32()?;
        let subfile_version = reader.read_u32()?;
        let brres_offset = reader.read_i32()?;
        let n_sections = get_section_count(ty, subfile_version)?;
        let ghost s = reader.bytes();
        let ghost p0 = old(reader).pos();
        let mut offsets: Vec<i32> = Vec::new();
        let mut i: usize = 0;
        while i < n_sections
            invariant
                reader.bytes() == s,
                s == old(reader).bytes(),
                p0 == old(reader).pos(),
                reader.pos() == p0 + 12 + 4 * i,
                i <= n_sections,
                n_sections <= 14,
                section_count(ty, u32_be(s, p0 + 4)) == Some(n_sections),
                (p0 as u32) >= 4,
                p0 >= 4,
                header_start == (p0 as u32) - 4,
                can_read(s, p0, 12),
                subfile_length == u32_be(s, p0),
                subfile_version == u32_be(s, p0 + 4),
                brres_offset == i32_be(s, p0 + 8),
                offsets@ == i32s_at(s, p0 + 12, i as nat),
            decreases n_sections - i,
        {
            let v = match reader.read_i32() {
                Ok(v) => v,
                Err(e) => {
                    assert(!can_read(s, p0, 12 + 4 * n_sections + 4)) by {
                        assert(!can_read(s, p0 + 12 + 4 * i, 4));
                    }
                    return Err(e);
                },
            };
            offsets.push(v);
            i = i + 1;
            assert(offsets@ =~= i32s_at(s, p0 + 12, i as nat));
        }
        let name_offset = match reader.read_i32() {
            Ok(v) => v,
            Err(e) => {
                assert(!can_read(s, p0, 12 + 4 * n_sections + 4));
                return Err(e);
            },
        };
        assert(offsets@ =~= i32s_at(s, p0 + 12, n_sections as nat));
        Ok(SubfileHeader { header_start, subfile_length, subfile_version, brres_offset, offsets, name_offset })
    }

    /// Obtains the start position of the section with the given index.
    pub fn get_section_start(&self, section_index: usize) -> (r: EditorResult<u32>)
        ensures
            match r {
                Ok(v) => section_index < self.offsets@.len() && i32::MIN <= self.header_start as i32
                    + self.offsets@[section_index as int] <= i32::MAX && v == (self.header_start as i32
                    + self.offsets@[section_index as int]) as u32,
                Err(e) => if section_index >= self.offsets@.len() {
                    e matches EditorError::OutOfRange { source } && source.requested == section_index
                        && source.range_start == 0 && source.range_end == self.offsets@.len()
                        && source.location is None
                } else {
                    !(i32::MIN <= self.header_start as i32 + self.offsets@[section_index as int]
                        <= i32::MAX) && (e matches EditorError::Corrupted { source } && source.location is None)
                },
            },
    {
        if section_index >= self.offsets.len() {
            return Err(
                EditorError::OutOfRange {
                    source: RangeError {
                        requested: section_index as u64,
                        range_start: 0,
                        range_end: self.offsets.len() as u64,
                        location: None,
                    },
                },
            );
        }
        let offset = self.offsets[section_index];
        match (self.header_start as i32).checked_add(offset) {
            Some(v) => Ok(v as u32),
            None => Err(corrupted("section offset overflows".to_owned(), None)),
        }
    }
}

/// The header of an index group.
#[derive(Debug, Clone, PartialEq, Eq)]
pub struct IndexGroupHeader {
    pub length: u32,
    pub number: u32,
}

impl Deserialize for IndexGroupHeader {
    fn deserialize(reader: &mut RefCursor) -> (r: EditorResult<Self>)
        ensures
            final(reader).bytes() == old(reader).bytes(),
            fixed_read(
                r,
                old(reader).bytes(),
                old(reader).pos(),
                8,
                IndexGroupHeader {
                    length: u32_be(old(reader).bytes(), old(reader).pos()),
                    number: u32_be(old(reader).bytes(), old(reader).pos() + 4),
                },
                final(reader).pos(),
            ),
    {
        let length = reader.read_u32()?;
        let number = reader.read_u32()?;
        Ok(IndexGroupHeader { length, number })
    }
}

/// An entry of an index group: a node of the binary search tree over names.
#[derive(Debug, Clone, PartialEq, Eq)]
pub struct IndexGroupEntry {
    pub entry_id: u16,
    pub flag: u16,
    pub left_index: u16,
    pub right_index: u16,
    pub name_pointer: u32,
    pub data_pointer: u32,
}

/// The index group entry stored at position `q` of `s`.
pub open spec fn entry_at(s: Seq<u8>, q: int) -> IndexGroupEntry {
    IndexGroupEntry {
        entry_id: u16_be(s, q),
        flag: u16_be(s, q + 2),
        left_index: u16_be(s, q + 4),
        right_index: u16_be(s, q + 6),
        name_pointer: u32_be(s, q + 8),
        data_pointer: u32_be(s, q + 12),
    }
}

/// Where each field of the value lies: the bytes (or bits) it is read from.
pub proof fn lemma_entry_layout(s: Seq<u8>, q: int)
    ensures
        entry_at(s, q).entry_id == (u16_be(s, q)),
        entry_at(s, q).flag == (u16_be(s, q + 2)),
        entry_at(s, q).left_index == (u16_be(s, q + 4)),
        entry_at(s, q).right_index == (u16_be(s, q + 6)),
        entry_at(s, q).name_pointer == (u32_be(s, q + 8)),
        entry_at(s, q).data_pointer == (u32_be(s, q + 12)),
{
}

impl Deserialize for IndexGroupEntry {
    fn deserialize(reader: &mut RefCursor) -> (r: EditorResult<Self>)
        ensures
            final(reader).bytes() == old(reader).bytes(),
            fixed_read(
                r,
                old(reader).bytes(),
                old(reader).pos(),
                16,
                entry_at(old(reader).bytes(), old(reader).pos()),
                final(reader).pos(),
            ),
    {
        let entry_id = reader.read_u16()?;
        let flag = reader.read_u16()?;
        let left_index = reader.read_u16()?;
        let right_index = reader.read_u16()?;
        let name_pointer = reader.read_u32()?;
        let data_pointer = reader.read_u32()?;
        Ok(IndexGroupEntry { entry_id, flag, left_index, right_index, name_pointer, data_pointer })
    }
}

/// Describes where the members of a group (directories, subfiles, bones, ...) are.
#[derive(Debug, Clone, PartialEq, Eq)]
pub struct IndexGroup {
    /// Position where this group starts.
    pub group_start: u32,
    /// The index group header.
    pub header: IndexGroupHeader,
    /// `header.number + 1` entries; the first one is a dummy entry without a name.
    pub entries: Vec<IndexGroupEntry>,
}

/// The `n` index group entries stored from position `q` of `s` on.
pub open spec fn entries_at(s: Seq<u8>, q: int, n: nat) -> Seq<IndexGroupEntry> {
    Seq::new(n, |i: int| entry_at(s, q + 16 * i))
}

/// Number of bytes an index group at `p` takes: its header and `number + 1` entries.
pub open spec fn index_group_size(s: Seq<u8>, p: int) -> int {
    8 + 16 * (u32_be(s, p + 4) + 1)
}

/// The index group stored at position `p` of `s`.
pub open spec fn index_group_at(s: Seq<u8>, p: int) -> IndexGroup {
    IndexGroup {
        group_start: p as u32,
        header: IndexGroupHeader { length: u32_be(s, p), number: u32_be(s, p + 4) },
        entries: arbitrary(),
    }
}

/// Where each field of the value lies: the bytes (or bits) it is read from.
pub proof fn lemma_index_group_layout(s: Seq<u8>, p: int)
    ensures
        index_group_at(s, p).group_start == (p as u32),
        index_group_at(s, p).header == (IndexGroupHeader { length: u32_be(s, p), number: u32_be(s, p + 4) }),
{
}

/// Where the name of `entry` of the group that starts at `group_start` can be read.
pub open spec fn entry_name_ok(s: Seq<u8>, group_start: u32, entry: IndexGroupEntry) -> bool {
    let at = group_start + entry.name_pointer - 4;
    entry.name_pointer == 0 || (group_start + entry.name_pointer <= u32::MAX && at >= 0 && can_read(
        s,
        at,
        4,
    ) && can_read(s, at + 4, u32_be(s, at) as int) && valid_utf8(
        s.subrange(at + 4, at + 4 + u32_be(s, at)),
    ))
}

/// The name of `entry`: empty without a name pointer, else the length-prefixed
/// UTF-8 string whose characters start at `group_start + name_pointer`.
pub open spec fn entry_name(s: Seq<u8>, group_start: u32, entry: IndexGroupEntry) -> Seq<char> {
    let at = group_start + entry.name_pointer - 4;
    if entry.name_pointer == 0 {
        Seq::empty()
    } else {
        decode_utf8(s.subrange(at + 4, at + 4 + u32_be(s, at)))
    }
}

/// Whether `e` is the error that reading the name of `entry` of the group that starts at
/// `group_start` gives where it cannot be read: a corruption error for a name pointer
/// that overflows, the end of the input, or a name that is not UTF-8.
pub open spec fn entry_name_error(s: Seq<u8>, group_start: u32, entry: IndexGroupEntry, e: EditorError) -> bool {
    let at = group_start + entry.name_pointer - 4;
    if !(group_start + entry.name_pointer <= u32::MAX && at >= 0) {
        e is Corrupted
    } else if !can_read(s, at, 4) || !can_read(s, at + 4, u32_be(s, at) as int) {
        e is IoError
    } else {
        e is InvalidString
    }
}

impl IndexGroup {
    /// Obtains the name of the given index group entry using its name pointer.
    ///
    /// An entry without a name (name pointer 0) gives the empty string.
    pub fn get_entry_name(&self, reader: &mut RefCursor, entry: &IndexGroupEntry) -> (r: EditorResult<String>)
        ensures
            final(reader).bytes() == old(reader).bytes(),
            ({
                let s = old(reader).bytes();
                let at = self.group_start + entry.name_pointer - 4;
                match r {
                    Ok(v) => entry_name_ok(s, self.group_start, *entry) && v@ == entry_name(
                        s,
                        self.group_start,
                        *entry,
                    ) && final(reader).pos() == (if entry.name_pointer == 0 {
                        old(reader).pos() as int
                    } else {
                        at + 4 + u32_be(s, at)
                    }),
                    Err(e) => !entry_name_ok(s, self.group_start, *entry) && entry_name_error(
                        s,
                        self.group_start,
                        *entry,
                        e,
                    ),
                }
            }),
    {
        if entry.name_pointer == 0 {
            return Ok(String::new());
        }
        let name_start = match self.group_start.checked_add(entry.name_pointer) {
            Some(v) => v,
            None => {
                return Err(corrupted("index group name pointer overflows".to_owned(), None));
            },
        };
        if name_start < 4 {
            return Err(corrupted("index group name pointer overflows".to_owned(), None));
        }
        reader.set_position(name_start as u64 - 4);
        reader.read_u32_string()
    }

    /// Position of the data of the given entry.
    pub fn get_entry_data_start(&self, entry: &IndexGroupEntry) -> (r: u32)
        requires
            self.group_start + entry.data_pointer <= u32::MAX,
        ensures
            r == self.group_start + entry.data_pointer,
    {
        self.group_start + entry.data_pointer
    }

    /// Position of the data of the given entry, or a corruption error where it does not fit in a `u32`.
    pub fn checked_entry_data_start(&self, entry: &IndexGroupEntry) -> (r: EditorResult<u32>)
        ensures
            match r {
                Ok(v) => self.group_start + entry.data_pointer <= u32::MAX && v == self.group_start
                    + entry.data_pointer,
                Err(e) => self.group_start + entry.data_pointer > u32::MAX && e is Corrupted,
            },
    {
        if entry.data_pointer > u32::MAX - self.group_start {
            return Err(corrupted("index group data pointer overflows".to_owned(), None));
        }
        Ok(self.get_entry_data_start(entry))
    }
}

impl Deserialize for IndexGroup {
    fn deserialize(reader: &mut RefCursor) -> (r: EditorResult<Self>)
        ensures
            final(reader).bytes() == old(reader).bytes(),
            ({
                let s = old(reader).bytes();
                let p = old(reader).pos();
                match r {
                    Ok(g) => can_read(s, p, index_group_size(s, p)) && g.group_start == index_group_at(
                        s,
                        p,
                    ).group_start && g.header == index_group_at(s, p).header && g.entries@
                        == entries_at(s, p + 8, (u32_be(s, p + 4) + 1) as nat) && final(reader).pos()
                        == p + index_group_size(s, p),
                    Err(e) => !can_read(s, p, index_group_size(s, p)) && e is IoError,
                }
            }),
    {
        let group_start = reader.position() as u32;
        let header = match IndexGroupHeader::deserialize(reader) {
            Ok(h) => h,
            Err(e) => {
                assert(!can_read(old(reader).bytes(), old(reader).pos(), index_group_size(old(reader).bytes(), old(reader).pos())));
                return Err(e);
            },
        };
        let ghost s = reader.bytes();
        let ghost p0 = old(reader).pos();
        let count: u64 = header.number as u64 + 1;
        let mut entries: Vec<IndexGroupEntry> = Vec::new();
        let mut i: u64 = 0;
        while i < count
            invariant
                reader.bytes() == s,
                s == old(reader).bytes(),
                p0 == old(reader).pos(),
                count == u32_be(s, p0 + 4) + 1,
                group_start == p0 as u32,
                header == index_group_at(s, p0).header,
                can_read(s, p0, 8 + 16 * i),
                reader.pos() == p0 + 8 + 16 * i,
                i <= count,
                entries@ == entries_at(s, p0 + 8, i as nat),
            decreases count - i,
        {
            let entry = match IndexGroupEntry::deserialize(reader) {
                Ok(e) => e,
                Err(e) => {
                    assert(!can_read(s, p0, 8 + 16 * count)) by {
                        assert(!can_read(s, p0 + 8 + 16 * i, 16));
                    }
                    return Err(e);
                },
            };
            entries.push(entry);
            i = i + 1;
            assert(entries@ =~= entries_at(s, p0 + 8, i as nat));
        }
        Ok(IndexGroup { group_start, header, entries })
    }
}


/// Whether `id` is a node of `map` labelled `label`, of kind `kind`, with parent `parent`.
pub open spec fn node_is(
    map: &VirtualNodeMap,
    id: VirtualNodeId,
    label: Seq<char>,
    kind: VirtualNodeKind,
    parent: Option<VirtualNodeId>,
) -> bool {
    map.node(id) matches Some(n) && n.label@ == label && n.kind == kind && n.parent == parent
        && n.id == id
}

/// Adds the node of a BRRES file named `name` to `map`. Its directories are read
/// lazily, from `reader` as it is now, when the node is first evaluated.
pub fn deserialize_virtual(
    reader: &mut RefCursor,
    parent_id: Option<VirtualNodeId>,
    node_map: &mut VirtualNodeMap,
    name: String,
) -> (r: EditorResult<VirtualNodeId>)
    ensures
        *final(reader) == *old(reader),
        old(node_map).extends(&*final(node_map)),
        match r {
            Ok(id) => id.value() == old(node_map).slots().len() + 1 && final(node_map).slots().len()
                == id.value() && node_is(
                &*final(node_map),
                id,
                name@,
                VirtualNodeKind::BrresDirectory,
                parent_id,
            ) && (final(node_map).node(id)->0.body matches Deferred::Deferred(pl) && pl.payload
                == Some(DeferredParse::Brres { reader: *old(reader) })),
            Err(_) => false,
        },
{
    let copy = reader.clone();
    let brres_id = node_map.next_id();
    let body = Deferred::defer(DeferredParse::Brres { reader: copy })?;
    let node = VirtualNode {
        label: name,
        id: brres_id,
        parent: parent_id,
        kind: VirtualNodeKind::BrresDirectory,
        body,
    };
    node_map.insert(brres_id, node);
    Ok(brres_id)
}

/// Where a node can be made for the subfile at `q`: its magic can be read, and an MDL0
/// model there can be read (see [`mdl0::mdl0_readable`]).
pub open spec fn subfile_readable(s: Seq<u8>, q: int) -> bool {
    can_read(s, q, 4) && (magic_at(s, q) == MDL0_MAGIC@ ==> mdl0::mdl0_readable(s, q + 4))
}

/// Whether `e` is the error that making a node for the subfile at `q` gives where it
/// cannot be made: the end of the input within its magic, else that of reading the MDL0
/// model there (see [`mdl0::mdl0_error`]).
pub open spec fn subfile_error(s: Seq<u8>, q: int, e: EditorError) -> bool {
    if !can_read(s, q, 4) {
        e is IoError
    } else {
        mdl0::mdl0_error(s, q + 4, e)
    }
}

/// Reads the subfile at the position of `reader`: an MDL0 model gets its tree of nodes
/// (see [`mdl0::deserialize_virtual`]); any other subfile becomes a node with its raw
/// bytes (after the magic). The new node is attached to `parent_id`.
fn deserialize_subfile(
    reader: &mut RefCursor,
    parent_id: VirtualNodeId,
    node_map: &mut VirtualNodeMap,
    name: String,
) -> (r: EditorResult<VirtualNodeId>)
    ensures
        final(reader).bytes() == old(reader).bytes(),
        old(node_map).extends(&*final(node_map)),
        r matches Ok(id) ==> id.value() == old(node_map).slots().len() + 1 && attached(
            &*final(node_map),
            id,
            Some(parent_id),
        ),
        ({
            let s = old(reader).bytes();
            let p = old(reader).pos();
            &&& r matches Ok(id) ==> subfile_node_is(&*final(node_map), id, s, p, name@)
            &&& r is Ok <==> subfile_readable(s, p)
            &&& r matches Err(e) ==> subfile_error(s, p, e)
        }),
{
    let magic = reader.read_u8_array4()?;
    if magic_eq(magic, MDL0_MAGIC) {
        mdl0::deserialize_virtual(reader, parent_id, node_map, name)
    } else {
        let id = node_map.next_id();
        let node = VirtualNode {
            label: "Unparsed format".to_string(),
            id,
            parent: Some(parent_id),
            kind: VirtualNodeKind::Unknown,
            body: Deferred::evaluated(
                VirtualNodeBody {
                    children: Vec::new(),
                    inspectable: Some(NodeContents::Raw(Raw { bytes: reader.clone() })),
                },
            ),
        };
        node_map.insert(id, node);
        Ok(id)
    }
}

/// Whether `id` is the node of a directory of the BRRES file whose node is `brres`: a
/// node attached to it, evaluated, whose children are nodes attached to `id`.
pub open spec fn brres_dir_ok(map: &VirtualNodeMap, id: VirtualNodeId, brres: VirtualNodeId) -> bool {
    &&& attached(map, id, Some(brres))
    &&& map.node(id) matches Some(n) && n.kind == VirtualNodeKind::BrresDirectory && (n.body matches Deferred::Evaluated(b)
        && b.inspectable is None && forall|k: int|
        0 <= k < b.children@.len() ==> attached(map, #[trigger] b.children@[k], Some(id)))
}

/// Whether `id` is the node made for the subfile at `q` of `s`, named `name`: an MDL0
/// model is a directory labelled with its name, any other subfile a node labelled
/// "Unparsed format".
pub open spec fn subfile_node_is(map: &VirtualNodeMap, id: VirtualNodeId, s: Seq<u8>, q: int, name: Seq<char>) -> bool {
    map.node(id) matches Some(n) && if can_read(s, q, 4) && magic_at(s, q) == MDL0_MAGIC@ {
        n.label@ == name && n.kind == VirtualNodeKind::BrresDirectory
    } else {
        n.label@ == "Unparsed format"@ && n.kind == VirtualNodeKind::Unknown
    }
}

/// Whether the subfile at `q` gets a node: an MDL0 model or a CHR0 animation.
pub open spec fn subfile_kept(s: Seq<u8>, q: int) -> bool {
    can_read(s, q, 4) && (magic_at(s, q) == MDL0_MAGIC@ || magic_at(s, q) == CHR0_MAGIC@)
}

/// The data position of entry `k` of the index group at `g`.
pub open spec fn entry_data(s: Seq<u8>, g: int, k: int) -> int {
    (g as u32) + entry_at(s, g + 8 + 16 * k).data_pointer
}

/// Indices of the entries `1..=k` of the index group at `g` whose subfiles get a node,
/// in order.
pub open spec fn kept_entries(s: Seq<u8>, g: int, k: nat) -> Seq<int>
    decreases k,
{
    if k == 0 {
        Seq::empty()
    } else {
        let prev = kept_entries(s, g, (k - 1) as nat);
        if subfile_kept(s, entry_data(s, g, k as int)) {
            prev.push(k as int)
        } else {
            prev
        }
    }
}

/// Whether `id` is the node of entry `k` of the root index group at `g` of a BRRES file:
/// labelled with the entry's name, with a child for each subfile of its directory that
/// gets a node (see [`kept_entries`]), made from that subfile and named by its entry.
pub open spec fn brres_dir_is(map: &VirtualNodeMap, id: VirtualNodeId, s: Seq<u8>, g: int, k: int) -> bool {
    let gd = entry_data(s, g, k);
    let kept = kept_entries(s, gd, u32_be(s, gd + 4) as nat);
    map.node(id) matches Some(n) && n.label@ == entry_name(s, g as u32, entry_at(s, g + 8 + 16 * k)) && (n.body matches Deferred::Evaluated(b) && {
        &&& b.children@.len() == kept.len()
        &&& forall|j: int|
            0 <= j < kept.len() ==> #[trigger] subfile_node_is(
                map,
                b.children@[j],
                s,
                entry_data(s, gd, kept[j]),
                entry_name(s, gd as u32, entry_at(s, gd + 8 + 16 * kept[j])),
            )
    })
}

/// Where subfile entry `f` of the directory index group at `gd` can be read: its name,
/// its data position, and a node for the subfile there (see [`subfile_readable`]).
pub open spec fn brres_subfile_ok(s: Seq<u8>, gd: int, f: int) -> bool {
    &&& entry_name_ok(s, gd as u32, entry_at(s, gd + 8 + 16 * f))
    &&& entry_data(s, gd, f) <= u32::MAX
    &&& subfile_readable(s, entry_data(s, gd, f))
}

/// Where directory entry `d` of the root index group at `g` can be read: its name, its
/// index group, and every subfile entry of that group after the first.
pub open spec fn brres_dir_readable(s: Seq<u8>, g: int, d: int) -> bool {
    let gd = entry_data(s, g, d);
    &&& entry_name_ok(s, g as u32, entry_at(s, g + 8 + 16 * d))
    &&& gd <= u32::MAX
    &&& can_read(s, gd, index_group_size(s, gd))
    &&& forall|f: int| 1 <= f <= u32_be(s, gd + 4) ==> #[trigger] brres_subfile_ok(s, gd, f)
}

/// Where the BRRES file whose header is at `p` can be read: its header, its root
/// subfile (at the root offset), the root index group after it, and every directory
/// entry of that group after the first.
pub open spec fn brres_readable(s: Seq<u8>, p: int) -> bool {
    let ro = u16_be(s, p + 12) as int;
    let g = ro + 8;
    &&& brres_header_ok(s, p)
    &&& can_read(s, ro, 8)
    &&& magic_at(s, ro) == ROOT_MAGIC@
    &&& can_read(s, g, index_group_size(s, g))
    &&& forall|d: int| 1 <= d <= u32_be(s, g + 4) ==> #[trigger] brres_dir_readable(s, g, d)
}

/// Whether `e` is the error that reading subfile entry `f` of the directory index group
/// at `gd` gives where it cannot be read (see [`brres_subfile_ok`]): that of its name, a
/// corruption error for a data position past the largest one, or that of its subfile.
pub open spec fn brres_subfile_error(s: Seq<u8>, gd: int, f: int, e: EditorError) -> bool {
    let entry = entry_at(s, gd + 8 + 16 * f);
    if !entry_name_ok(s, gd as u32, entry) {
        entry_name_error(s, gd as u32, entry, e)
    } else if !(entry_data(s, gd, f) <= u32::MAX) {
        e is Corrupted
    } else {
        subfile_error(s, entry_data(s, gd, f), e)
    }
}

/// Whether `e` is the error that reading directory entry `d` of the root index group at
/// `g` gives where it cannot be read (see [`brres_dir_readable`]): that of its name, a
/// corruption error for a data position past the largest one, the end of the input
/// within its index group, else that of its first subfile entry that cannot be read.
pub open spec fn brres_dir_error(s: Seq<u8>, g: int, d: int, e: EditorError) -> bool {
    let entry = entry_at(s, g + 8 + 16 * d);
    let gd = entry_data(s, g, d);
    if !entry_name_ok(s, g as u32, entry) {
        entry_name_error(s, g as u32, entry, e)
    } else if !(gd <= u32::MAX) {
        e is Corrupted
    } else if !can_read(s, gd, index_group_size(s, gd)) {
        e is IoError
    } else {
        exists|f: int|
            1 <= f <= u32_be(s, gd + 4) && (forall|k: int| 1 <= k < f ==> #[trigger] brres_subfile_ok(s, gd, k))
                && !#[trigger] brres_subfile_ok(s, gd, f) && brres_subfile_error(s, gd, f, e)
    }
}

/// Whether `e` is the error that reading the BRRES file whose header is at `p` gives
/// where it cannot be read (see [`brres_readable`]): that of its header, a wrong magic
/// or the end of the input at its root subfile, the end of the input within the root
/// index group, else that of its first directory entry that cannot be read.
pub open spec fn brres_error(s: Seq<u8>, p: int, e: EditorError) -> bool {
    let ro = u16_be(s, p + 12) as int;
    let g = ro + 8;
    if !brres_header_ok(s, p) {
        brres_header_error(s, p, e)
    } else if can_read(s, ro, 4) && magic_at(s, ro) != ROOT_MAGIC@ {
        magic_mismatch(s, ro, ROOT_MAGIC@, e)
    } else if !can_read(s, ro, 8) || !can_read(s, g, index_group_size(s, g)) {
        e is IoError
    } else {
        exists|d: int|
            1 <= d <= u32_be(s, g + 4) && (forall|k: int| 1 <= k < d ==> #[trigger] brres_dir_readable(s, g, k))
                && !#[trigger] brres_dir_readable(s, g, d) && brres_dir_error(s, g, d, e)
    }
}

/// What reading the BRRES file whose header is at `p` of `s` for the node `brres_id`
/// gives, from map `before` to map `after`: the map only grows; reading succeeds exactly
/// where the file can be read (see [`brres_readable`]), and then gives a body with no
/// contents of its own and a node per directory entry of the root index group.
pub open spec fn brres_result(
    s: Seq<u8>,
    p: int,
    brres_id: VirtualNodeId,
    before: &VirtualNodeMap,
    after: &VirtualNodeMap,
    r: EditorResult<VirtualNodeBody>,
) -> bool {
    let g = u16_be(s, p + 12) + 8;
    &&& before.extends(after)
    &&& (r is Ok <==> brres_readable(s, p))
    &&& r matches Err(e) ==> brres_error(s, p, e)
    &&& r matches Ok(body) ==> {
        &&& body.inspectable is None
        &&& body.children@.len() == u32_be(s, g + 4)
        &&& forall|k: int|
            0 <= k < body.children@.len() ==> brres_dir_ok(after, #[trigger] body.children@[k], brres_id)
                && brres_dir_is(after, body.children@[k], s, g, k + 1)
    }
}

/// Reads the directories of the BRRES file at the start of `reader` (its header, root
/// subfile and index groups) and the MDL0 and CHR0 subfiles in them; subfiles of other
/// types are skipped. Each directory becomes a node attached to `brres_id`, with its
/// subfiles as children. Returns the body of the BRRES node: the directories.
pub fn parse_brres(
    reader: &mut RefCursor,
    brres_id: VirtualNodeId,
    node_map: &mut VirtualNodeMap,
) -> (r: EditorResult<VirtualNodeBody>)
    ensures
        final(reader).bytes() == old(reader).bytes(),
        brres_result(old(reader).bytes(), old(reader).pos(), brres_id, &*old(node_map), &*final(node_map), r),
{
    let ghost s = reader.bytes();
    let header = Header::deserialize(reader)?;
    reader.set_position(header.root_offset as u64);
    let _root = RootSubfile::deserialize(reader)?;
    let ghost g = header.root_offset + 8;
    let root_index = IndexGroup::deserialize(reader)?;
    let mut directories: Vec<VirtualNodeId> = Vec::new();
    let count = root_index.entries.len();
    let mut d: usize = 1;
    while d < count
        invariant
            reader.bytes() == s,
            s == old(reader).bytes(),
            old(node_map).extends(&*node_map),
            count == root_index.entries@.len(),
            count == u32_be(s, g + 4) + 1,
            g == u16_be(s, old(reader).pos() + 12) + 8,
            root_index.group_start == g as u32,
            g as u32 == g,
            root_index.entries@ == entries_at(s, g + 8, count as nat),
            1 <= d <= count,
            directories@.len() == d - 1,
            brres_header_ok(s, old(reader).pos()),
            can_read(s, g - 8, 8),
            magic_at(s, g - 8) == ROOT_MAGIC@,
            can_read(s, g, index_group_size(s, g)),
            forall|k: int| 1 <= k < d ==> #[trigger] brres_dir_readable(s, g, k),
            forall|k: int|
                0 <= k < directories@.len() ==> brres_dir_ok(&*node_map, #[trigger] directories@[k], brres_id)
                    && brres_dir_is(&*node_map, directories@[k], s, g, k + 1)
                    && 1 <= directories@[k].value() <= node_map.slots().len(),
        decreases count - d,
    {
        let dir = &root_index.entries[d];
        proof {
            assert(*dir == entry_at(s, g + 8 + 16 * d));
        }
        let dir_name = match root_index.get_entry_name(reader, dir) {
            Ok(v) => v,
            Err(e) => {
                assert(!brres_dir_readable(s, g, d as int));
                return Err(e);
            },
        };
        let ghost before_dir = *node_map;
        let dir_id = node_map.next_id();
        let data_start = match root_index.checked_entry_data_start(dir) {
            Ok(v) => v,
            Err(e) => {
                assert(!brres_dir_readable(s, g, d as int));
                return Err(e);
            },
        };
        let ghost gd = entry_data(s, g, d as int);
        reader.set_position(data_start as u64);
        let child_index = match IndexGroup::deserialize(reader) {
            Ok(v) => v,
            Err(e) => {
                assert(!brres_dir_readable(s, g, d as int));
                return Err(e);
            },
        };
        let mut subfiles: Vec<VirtualNodeId> = Vec::new();
        let child_count = child_index.entries.len();
        let mut f: usize = 1;
        while f < child_count
            invariant
                reader.bytes() == s,
                s == old(reader).bytes(),
                old(node_map).extends(&*node_map),
                before_dir.extends(&*node_map),
                dir_id.value() == before_dir.slots().len() + 1,
                node_map.slots().len() >= dir_id.value(),
                node_map.node(dir_id) is None,
                child_count == child_index.entries@.len(),
                child_count == u32_be(s, gd + 4) + 1,
                child_index.group_start == gd as u32,
                gd as u32 == gd,
                child_index.entries@ == entries_at(s, gd + 8, child_count as nat),
                1 <= f <= child_count,
                brres_header_ok(s, old(reader).pos()),
                can_read(s, g - 8, 8),
                magic_at(s, g - 8) == ROOT_MAGIC@,
                can_read(s, g, index_group_size(s, g)),
                forall|k: int| 1 <= k < d ==> #[trigger] brres_dir_readable(s, g, k),
                entry_name_ok(s, g as u32, entry_at(s, g + 8 + 16 * d)),
                gd <= u32::MAX,
                gd == entry_data(s, g, d as int),
                can_read(s, gd, index_group_size(s, gd)),
                forall|k: int| 1 <= k < f ==> #[trigger] brres_subfile_ok(s, gd, k),
                g == u16_be(s, old(reader).pos() + 12) + 8,
                count == u32_be(s, g + 4) + 1,
                1 <= d < count,
                forall|k: int|
                    0 <= k < directories@.len() ==> brres_dir_ok(&before_dir, #[trigger] directories@[k], brres_id)
                        && brres_dir_is(&before_dir, directories@[k], s, g, k + 1)
                        && 1 <= directories@[k].value() <= before_dir.slots().len(),
                subfiles@.len() == kept_entries(s, gd, (f - 1) as nat).len(),
                forall|k: int|
                    0 <= k < subfiles@.len() ==> attached(&*node_map, #[trigger] subfiles@[k], Some(dir_id))
                        && dir_id.value() < subfiles@[k].value() <= node_map.slots().len()
                        && subfile_node_is(
                        &*node_map,
                        subfiles@[k],
                        s,
                        entry_data(s, gd, kept_entries(s, gd, (f - 1) as nat)[k]),
                        entry_name(s, gd as u32, entry_at(s, gd + 8 + 16 * kept_entries(s, gd, (f - 1) as nat)[k])),
                    ),
            decreases child_count - f,
        {
            let subfile = &child_index.entries[f];
            proof {
                assert(*subfile == entry_at(s, gd + 8 + 16 * f));
            }
            let subfile_name = match child_index.get_entry_name(reader, subfile) {
                Ok(v) => v,
                Err(e) => {
                    assert(!entry_name_ok(s, gd as u32, entry_at(s, gd + 8 + 16 * f)));
                    assert(!brres_subfile_ok(s, gd, f as int));
                    assert(1 <= f <= u32_be(s, gd + 4));
                    assert(!brres_dir_readable(s, g, d as int));
                    return Err(e);
                },
            };
            let data_start = match child_index.checked_entry_data_start(subfile) {
                Ok(v) => v,
                Err(e) => {
                    assert(!brres_subfile_ok(s, gd, f as int));
                    assert(!brres_dir_readable(s, g, d as int));
                    return Err(e);
                },
            };
            reader.set_position(data_start as u64);
            let magic = match reader.read_u8_array4() {
                Ok(v) => v,
                Err(e) => {
                    assert(!brres_subfile_ok(s, gd, f as int));
                    assert(!brres_dir_readable(s, g, d as int));
                    return Err(e);
                },
            };
            reader.set_position(data_start as u64);
            let ghost kept_before = kept_entries(s, gd, (f - 1) as nat);
            if magic_eq(magic, MDL0_MAGIC) || magic_eq(magic, CHR0_MAGIC) {
                assert(subfile_kept(s, entry_data(s, gd, f as int)));
                let ghost before_file = *node_map;
                let file = match deserialize_subfile(reader, dir_id, node_map, subfile_name) {
                    Ok(v) => v,
                    Err(e) => {
                        assert(!brres_subfile_ok(s, gd, f as int));
                        assert(!brres_dir_readable(s, g, d as int));
                        return Err(e);
                    },
                };
                proof {
                    assert(kept_entries(s, gd, f as nat) == kept_before.push(f as int));
                    assert forall|k: int| 0 <= k < subfiles@.len() implies attached(&*node_map, #[trigger] subfiles@[k], Some(dir_id))
                        && subfile_node_is(
                        &*node_map,
                        subfiles@[k],
                        s,
                        entry_data(s, gd, kept_before[k]),
                        entry_name(s, gd as u32, entry_at(s, gd + 8 + 16 * kept_before[k])),
                    ) by {
                        assert(before_file.slots()[subfiles@[k].value() - 1] == node_map.slots()[subfiles@[k].value() - 1]);
                    }
                    assert(node_map.slots()[dir_id.value() - 1] == before_file.slots()[dir_id.value() - 1]);
                    lemma_extends_chain(&before_dir, &before_file, &*node_map);
                }
                subfiles.push(file);
                proof {
                    let kept_now = kept_entries(s, gd, f as nat);
                    assert forall|k: int| 0 <= k < subfiles@.len() implies attached(&*node_map, #[trigger] subfiles@[k], Some(dir_id))
                        && dir_id.value() < subfiles@[k].value() <= node_map.slots().len()
                        && subfile_node_is(
                        &*node_map,
                        subfiles@[k],
                        s,
                        entry_data(s, gd, kept_now[k]),
                        entry_name(s, gd as u32, entry_at(s, gd + 8 + 16 * kept_now[k])),
                    ) by {
                        if k < subfiles@.len() - 1 {
                            assert(kept_now[k] == kept_before[k]);
                        }
                    }
                }
            } else {
                assert(!subfile_kept(s, entry_data(s, gd, f as int)));
                assert(kept_entries(s, gd, f as nat) == kept_before);
            }
            assert(brres_subfile_ok(s, gd, f as int));
            f = f + 1;
        }
        assert(brres_dir_readable(s, g, d as int));
        let ghost before_insert = *node_map;
        let node = VirtualNode {
            label: dir_name,
            id: dir_id,
            parent: Some(brres_id),
            kind: VirtualNodeKind::BrresDirectory,
            body: Deferred::evaluated(VirtualNodeBody { children: subfiles, inspectable: None }),
        };
        node_map.insert(dir_id, node);
        proof {
            assert forall|k: int| 0 <= k < directories@.len() implies brres_dir_ok(&*node_map, #[trigger] directories@[k], brres_id)
                && brres_dir_is(&*node_map, directories@[k], s, g, k + 1) by {
                let dk = directories@[k];
                assert(brres_dir_ok(&before_dir, dk, brres_id));
                assert(brres_dir_is(&before_dir, dk, s, g, k + 1));
                assert(node_map.slots()[dk.value() - 1] == before_dir.slots()[dk.value() - 1]);
                let b = before_dir.node(dk)->0.body->Evaluated_0;
                let gk = entry_data(s, g, k + 1);
                let kept = kept_entries(s, gk, u32_be(s, gk + 4) as nat);
                assert forall|j: int| 0 <= j < b.children@.len() implies attached(&*node_map, #[trigger] b.children@[j], Some(dk)) by {
                    assert(attached(&before_dir, b.children@[j], Some(dk)));
                    let c = b.children@[j];
                    assert(node_map.slots()[c.value() - 1] == before_dir.slots()[c.value() - 1]);
                }
                assert forall|j: int| 0 <= j < kept.len() implies #[trigger] subfile_node_is(
                    &*node_map,
                    b.children@[j],
                    s,
                    entry_data(s, gk, kept[j]),
                    entry_name(s, gk as u32, entry_at(s, gk + 8 + 16 * kept[j])),
                ) by {
                    assert(subfile_node_is(
                        &before_dir,
                        b.children@[j],
                        s,
                        entry_data(s, gk, kept[j]),
                        entry_name(s, gk as u32, entry_at(s, gk + 8 + 16 * kept[j])),
                    ));
                    assert(attached(&before_dir, b.children@[j], Some(dk)));
                    let c = b.children@[j];
                    assert(node_map.slots()[c.value() - 1] == before_dir.slots()[c.value() - 1]);
                }
            }
            let b = node_map.node(dir_id)->0.body->Evaluated_0;
            assert(b.children@ == subfiles@);
            assert forall|j: int| 0 <= j < b.children@.len() implies attached(&*node_map, #[trigger] b.children@[j], Some(dir_id)) by {
                let c = b.children@[j];
                assert(attached(&before_insert, c, Some(dir_id)));
                assert(node_map.slots()[c.value() - 1] == before_insert.slots()[c.value() - 1]);
            }
            let kept = kept_entries(s, gd, u32_be(s, gd + 4) as nat);
            assert forall|j: int| 0 <= j < kept.len() implies #[trigger] subfile_node_is(
                &*node_map,
                b.children@[j],
                s,
                entry_data(s, gd, kept[j]),
                entry_name(s, gd as u32, entry_at(s, gd + 8 + 16 * kept[j])),
            ) by {
                let c = b.children@[j];
                assert(attached(&before_insert, c, Some(dir_id)));
                assert(node_map.slots()[c.value() - 1] == before_insert.slots()[c.value() - 1]);
            }
            assert(brres_dir_is(&*node_map, dir_id, s, g, d as int));
        }
        directories.push(dir_id);
        d = d + 1;
    }
    Ok(VirtualNodeBody { inspectable: None, children: directories })
}

/// Two extensions in a row make one.
proof fn lemma_extends_chain(a: &VirtualNodeMap, b: &VirtualNodeMap, c: &VirtualNodeMap)
    requires
        a.extends(b),
        b.extends(c),
    ensures
        a.extends(c),
{
    crate::node::refs::lemma_extends_trans(a, b, c);
}

} // verus!
