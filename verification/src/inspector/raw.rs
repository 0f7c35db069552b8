//! Contents of a file of unknown format.
use vstd::prelude::*;

use crate::shared::util::RefCursor;

verus! {

/// The raw bytes of a file that no reader of this crate understands.
pub struct Raw {
    pub bytes: RefCursor,
}

impl Raw {
    /// File size shown for raw contents: the bytes left from the position of the cursor.
    pub fn file_size(&self) -> (r: usize)
        ensures
            r == (if self.bytes.pos() <= self.bytes.bytes().len() {
                self.bytes.bytes().len() - self.bytes.pos()
            } else {
                0
            }),
    {
        self.bytes.remaining_len()
    }
}

} // verus!
