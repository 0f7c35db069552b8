//! Indexed loads of matrices and lights.
use vstd::prelude::*;

use crate::error::EditorResult;
use crate::format::bits::{field, get_field};
use crate::format::encoding::Deserialize;
use crate::shared::util::{can_read, u32_be, RefCursor};

verus! {
/// A load of an indexed array entry into a transform unit slot.
#[derive(Debug, Copy, Clone, PartialEq, Eq, Structural)]
pub struct IndexedLoad(pub u32);

impl IndexedLoad {
    /// The word this value is made of.
    pub open spec fn bits(&self) -> u32 {
        self.0
    }

    /// The value made of the word `bits`.
    pub fn from_bits(bits: u32) -> (r: Self)
        ensures
            r.bits() == bits,
    {
        IndexedLoad(bits)
    }

    /// The word this value is made of.
    pub fn into_bits(&self) -> (r: u32)
        ensures
            r == self.bits(),
    {
        self.0
    }

    /// The XF slot to pull the data from (bits 0..16).
    pub fn index(&self) -> (r: i16)
        ensures
            r == field(self.bits(), 0, 0xffff) as u16 as i16,
    {
        get_field(self.0, 0, 0xffff) as u16 as i16
    }

    /// Address into the indexed array (bits 16..28).
    pub fn address(&self) -> (r: u16)
        ensures
            r == field(self.bits(), 16, 0xfff),
    {
        get_field(self.0, 16, 0xfff) as u16
    }

    /// Transfer count minus one (bits 28..32).
    pub fn transfer_count_one(&self) -> (r: u8)
        ensures
            r == field(self.bits(), 28, 0xf),
    {
        get_field(self.0, 28, 0xf) as u8
    }
}
impl Deserialize for IndexedLoad {
    fn deserialize(reader: &mut RefCursor) -> (r: EditorResult<Self>)
        ensures
            final(reader).bytes() == old(reader).bytes(),
            ({
                let s = old(reader).bytes();
                let p = old(reader).pos();
                match r {
                    Ok(l) => can_read(s, p, 4) && l.bits() == u32_be(s, p) && final(reader).pos() == p + 4,
                    Err(e) => !can_read(s, p, 4) && e is IoError,
                }
            }),
    {
        let word = reader.read_u32()?;
        Ok(IndexedLoad::from_bits(word))
    }
}

} // verus!
