//! Calls of display lists.
use vstd::prelude::*;

use crate::error::EditorResult;
use crate::format::encoding::Deserialize;
use crate::shared::util::{fixed_read, u32_be, RefCursor};

verus! {

/// A call of the display list of `size` bytes at `address`.
#[derive(Debug, Copy, Clone, PartialEq, Eq, Structural)]
pub struct CallDisplayList {
    pub address: u32,
    pub size: u32,
}

impl Deserialize for CallDisplayList {
    fn deserialize(reader: &mut RefCursor) -> (r: EditorResult<Self>)
        ensures
            final(reader).bytes() == old(reader).bytes(),
            fixed_read(
                r,
                old(reader).bytes(),
                old(reader).pos(),
                8,
                CallDisplayList {
                    address: u32_be(old(reader).bytes(), old(reader).pos()),
                    size: u32_be(old(reader).bytes(), old(reader).pos() + 4),
                },
                final(reader).pos(),
            ),
    {
        let address = reader.read_u32()?;
        let size = reader.read_u32()?;
        Ok(CallDisplayList { address, size })
    }
}

} // verus!
