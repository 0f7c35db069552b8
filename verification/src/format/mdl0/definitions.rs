//! The definitions (draw lists) section of MDL0 models, of which no contents are read.
use vstd::prelude::*;

use crate::error::EditorResult;
use crate::format::mdl0::SectionDeserialize;
use crate::shared::util::RefCursor;

verus! {

/// The definitions section; its contents are not kept.
#[derive(Debug, Copy, Clone, PartialEq, Eq)]
pub struct Definitions {}

impl SectionDeserialize for Definitions {
    fn deserialize_section(_reader: &mut RefCursor, _header_start: u32) -> (r: EditorResult<Self>)
        ensures
            r is Ok,
            *final(_reader) == *old(_reader),
    {
        Ok(Definitions {})
    }
}

} // verus!
