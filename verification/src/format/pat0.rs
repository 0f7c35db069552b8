//! PAT0 subfiles: texture pattern animations. Only their headers are read so far.
use vstd::prelude::*;

use crate::error::{unsupported, EditorError, EditorResult};
use crate::format::brres::{
    entry_at, entry_name_ok, index_group_size, section_count, subfile_header_error, subfile_header_ok, subfile_header_size, IndexGroup,
    Subfile, SubfileHeader, SubfileType,
};
use crate::format::encoding::first_zero_from;
use vstd::utf8::valid_utf8;
use crate::format::encoding::{Deserialize, ReadStringExt};
use crate::shared::util::{can_read, i32_be, u16_be, u32_be, u32s_at, RefCursor};

verus! {

/// Magic of a PAT0 subfile ("PAT0").
pub const PAT0_MAGIC: [u8; 4] = [0x50, 0x41, 0x54, 0x30];

/// The header of a PAT0 animation.
#[derive(Debug, Copy, Clone, PartialEq, Eq)]
pub struct Pat0Header {
    pub frame_count: u16,
    pub base_number: u16,
    pub string_number: u16,
    pub cyclic: bool,
}

/// The PAT0 header stored at `p` of `s`.
pub open spec fn pat0_header_at(s: Seq<u8>, p: int) -> Pat0Header {
    Pat0Header {
        frame_count: u16_be(s, p + 4),
        base_number: u16_be(s, p + 6),
        string_number: u16_be(s, p + 8),
        cyclic: u16_be(s, p + 14) != 0,
    }
}

/// Where each field of the value lies: the bytes (or bits) it is read from.
pub proof fn lemma_pat0_header_layout(s: Seq<u8>, p: int)
    ensures
        pat0_header_at(s, p).frame_count == (u16_be(s, p + 4)),
        pat0_header_at(s, p).base_number == (u16_be(s, p + 6)),
        pat0_header_at(s, p).string_number == (u16_be(s, p + 8)),
        pat0_header_at(s, p).cyclic == (u16_be(s, p + 14) != 0),
{
}

impl Deserialize for Pat0Header {
    fn deserialize(reader: &mut RefCursor) -> (r: EditorResult<Self>)
        ensures
            final(reader).bytes() == old(reader).bytes(),
            ({
                let s = old(reader).bytes();
                let p = old(reader).pos();
                match r {
                    Ok(h) => can_read(s, p, 16) && h == pat0_header_at(s, p) && final(reader).pos() == p + 16,
                    Err(e) => !can_read(s, p, 16) && e is IoError,
                }
            }),
    {
        let _unknown12 = reader.read_u32()?;
        let frame_count = reader.read_u16()?;
        let base_number = reader.read_u16()?;
        let string_number = reader.read_u16()?;
        let _unknown34 = reader.read_u32()?;
        let cyclic = reader.read_u16()? != 0;
        Ok(Pat0Header { frame_count, base_number, string_number, cyclic })
    }
}

/// An animation section of a PAT0 subfile (its contents are not read).
#[derive(Debug, Copy, Clone, PartialEq, Eq)]
pub struct AnimationSection {}

/// Sections 1 and 3 of a PAT0 subfile: `string_number` words.
#[derive(Debug, Clone, PartialEq, Eq)]
pub struct U32Section {
    pub offsets: Vec<u32>,
}

impl U32Section {
    /// Reads `string_number` big-endian words.
    pub fn deserialize(reader: &mut RefCursor, string_number: u16) -> (r: EditorResult<Self>)
        ensures
            final(reader).bytes() == old(reader).bytes(),
            ({
                let s = old(reader).bytes();
                let p = old(reader).pos();
                match r {
                    Ok(u) => can_read(s, p, 4 * string_number) && u.offsets@ == u32s_at(s, p, string_number as nat)
                        && final(reader).pos() == p + 4 * string_number,
                    Err(e) => !can_read(s, p, 4 * string_number) && e is IoError,
                }
            }),
    {
        let offsets = reader.read_u32_vec(string_number as usize)?;
        Ok(U32Section { offsets })
    }
}

/// Where the parts of the PAT0 subfile whose header is at `p` (just after its magic)
/// that are read can be read: its subfile header, its PAT0 header, its name (up to a
/// zero byte, which the index group that follows starts at), that index group with at
/// least one entry after the first, and that entry's name.
pub open spec fn pat0_parts_ok(s: Seq<u8>, p: int) -> bool {
    let n = section_count(SubfileType::Pat0, u32_be(s, p + 4))->0;
    let q = p + subfile_header_size(s, p, SubfileType::Pat0);
    let ns = ((((p as u32) - 4) as u32) as i64 + i32_be(s, p + 12 + 4 * n) as i64) as u64 as int;
    &&& subfile_header_ok(s, p, SubfileType::Pat0)
    &&& can_read(s, q, 16)
    &&& first_zero_from(s, ns) matches Some(g) && {
        &&& valid_utf8(s.subrange(ns, g))
        &&& can_read(s, g, index_group_size(s, g))
        &&& u32_be(s, g + 4) >= 1
        &&& entry_name_ok(s, g as u32, entry_at(s, g + 24))
    }
}

/// Whether `e` is the error that reading the PAT0 subfile whose header is at `p` (just
/// after its magic) ends in: the error of the first part that cannot be read (see
/// [`pat0_parts_ok`]), or, where every part can be read, an unsupported-format error for
/// the animation data, which is not read.
pub open spec fn pat0_error_ok(s: Seq<u8>, p: int, e: EditorError) -> bool {
    let n = section_count(SubfileType::Pat0, u32_be(s, p + 4));
    let q = p + subfile_header_size(s, p, SubfileType::Pat0);
    let ns = ((((p as u32) - 4) as u32) as i64 + i32_be(s, p + 12 + 4 * n->0) as i64) as u64 as int;
    if !subfile_header_ok(s, p, SubfileType::Pat0) {
        subfile_header_error(s, p, SubfileType::Pat0, e)
    } else if !can_read(s, q, 16) {
        e is IoError
    } else {
        match first_zero_from(s, ns) {
            None => e is Corrupted,
            Some(g) => {
                let entry = entry_at(s, g + 24);
                let at = (g as u32) + entry.name_pointer - 4;
                if !valid_utf8(s.subrange(ns, g)) {
                    e is InvalidString
                } else if !can_read(s, g, index_group_size(s, g)) {
                    e is IoError
                } else if u32_be(s, g + 4) < 1 {
                    e is Unsupported
                } else if entry_name_ok(s, g as u32, entry) {
                    e is Unsupported
                } else if !((g as u32) + entry.name_pointer <= u32::MAX && at >= 0) {
                    e is Corrupted
                } else if !can_read(s, at, 4) || !can_read(s, at + 4, u32_be(s, at) as int) {
                    e is IoError
                } else {
                    e is InvalidString
                }
            },
        }
    }
}

/// A PAT0 subfile.
pub struct Pat0Subfile {
    pub subfile_header: SubfileHeader,
    pub pat0_header: Pat0Header,
}

impl Deserialize for Pat0Subfile {
    /// Reads the subfile header, the PAT0 header, the subfile's name and the name of the
    /// first entry of its index group; the animation data after them is not read yet,
    /// so this fails once those parts have been read.
    fn deserialize(reader: &mut RefCursor) -> (r: EditorResult<Self>)
        ensures
            final(reader).bytes() == old(reader).bytes(),
            r matches Err(e) && pat0_error_ok(old(reader).bytes(), old(reader).pos(), e),
            r matches Err(e) && (pat0_parts_ok(old(reader).bytes(), old(reader).pos()) ==> e is Unsupported),
    {
        let subfile_header = SubfileHeader::deserialize(reader, SubfileType::Pat0)?;
        let _pat0_header = Pat0Header::deserialize(reader)?;
        let name_start: i64 = subfile_header.header_start as i64 + subfile_header.name_offset as i64;
        reader.set_position(name_start as u64);
        let _pat0_name = reader.read_null_string()?;
        let index_group = IndexGroup::deserialize(reader)?;
        if index_group.entries.len() < 2 {
            return Err(unsupported("PAT0 subfile without animated entries".to_owned(), None));
        }
        let _name = index_group.get_entry_name(reader, &index_group.entries[1])?;
        Err(unsupported("PAT0 animation data is not read".to_owned(), Some(reader.position())))
    }
}

impl Subfile for Pat0Subfile {
    fn magic() -> (m: [u8; 4])
        ensures
            m == PAT0_MAGIC,
    {
        PAT0_MAGIC
    }
}

} // verus!
