//! Contents that may be parsed lazily, when they are first needed.
use vstd::prelude::*;

use crate::error::{invalid_input, EditorResult};
use crate::format::mdl0::SectionType;
use crate::node::refs::VirtualNodeId;
use crate::shared::util::RefCursor;

verus! {

/// A parse that has not run yet: what it reads and how.
pub enum DeferredParse {
    /// The directories of a BRRES file, read from `reader` (at the start of the file).
    Brres { reader: RefCursor },
    /// A section of an MDL0 model.
    Mdl0Section {
        /// Cursor over the BRRES file that holds the model.
        reader: RefCursor,
        /// Position of the magic of the MDL0 subfile.
        header_start: u32,
        /// Offset of the section from `header_start`.
        section_offset: i32,
        section_ty: SectionType,
        /// The node that the entries of the section are attached to.
        parent_id: VirtualNodeId,
    },
}

impl DeferredParse {
    /// Another description of the same parse.
    pub fn duplicate(&self) -> (r: Self)
        ensures
            r == *self,
    {
        match self {
            DeferredParse::Brres { reader } => DeferredParse::Brres { reader: reader.clone() },
            DeferredParse::Mdl0Section { reader, header_start, section_offset, section_ty, parent_id } => {
                DeferredParse::Mdl0Section {
                    reader: reader.clone(),
                    header_start: *header_start,
                    section_offset: *section_offset,
                    section_ty: *section_ty,
                    parent_id: *parent_id,
                }
            },
        }
    }
}

/// The data handed to a deferred parse when it runs.
pub struct DeferPayload {
    pub payload: Option<DeferredParse>,
}

impl DeferPayload {
    /// Takes the parse that this payload describes, leaving the payload empty; a payload
    /// that is already empty gives an invalid-input error.
    pub fn load(&mut self) -> (r: EditorResult<DeferredParse>)
        ensures
            final(self).payload is None,
            match r {
                Ok(p) => old(self).payload == Some(p),
                Err(e) => old(self).payload is None && e is InvalidInput,
            },
    {
        let mut taken: Option<DeferredParse> = None;
        std::mem::swap(&mut taken, &mut self.payload);
        match taken {
            Some(p) => Ok(p),
            None => Err(invalid_input("deferred node has no payload".to_owned(), None)),
        }
    }
}

/// A possibly deferred parsing operation.
pub enum Deferred<T> {
    /// The object has not been parsed yet, so no data is available.
    Deferred(DeferPayload),
    /// The object has been fully parsed and the data is available.
    Evaluated(T),
}

impl<T> Deferred<T> {
    /// Creates deferred content: `parse` runs only when the content is requested.
    pub fn defer(parse: DeferredParse) -> (r: Result<Self, crate::error::EditorError>)
        ensures
            r == Ok::<Self, crate::error::EditorError>(Deferred::Deferred(DeferPayload { payload: Some(parse) })),
    {
        Ok(Deferred::Deferred(DeferPayload { payload: Some(parse) }))
    }

    /// Creates a new, already parsed, deferred object.
    pub fn evaluated(data: T) -> (r: Self)
        ensures
            r == Deferred::<T>::Evaluated(data),
    {
        Deferred::Evaluated(data)
    }

    /// The parsed contents, if they have been parsed.
    pub fn get(&self) -> (r: Option<&T>)
        ensures
            match self {
                Deferred::Evaluated(x) => r == Some(x),
                Deferred::Deferred(_) => r is None,
            },
    {
        match self {
            Deferred::Evaluated(x) => Some(x),
            Deferred::Deferred(_) => None,
        }
    }

    /// Runs `peek_fn` on the contents and returns its output, if they have been parsed;
    /// `None` otherwise.
    pub fn inspect_ref<F, O>(&self, peek_fn: F) -> (r: Option<O>) where F: FnOnce(&T) -> O
        requires
            match self {
                Deferred::Evaluated(x) => call_requires(peek_fn, (x,)),
                Deferred::Deferred(_) => true,
            },
        ensures
            match self {
                Deferred::Evaluated(x) => r matches Some(o) && call_ensures(peek_fn, (x,), o),
                Deferred::Deferred(_) => r is None,
            },
    {
        match self {
            Deferred::Evaluated(x) => Some(peek_fn(x)),
            Deferred::Deferred(_) => None,
        }
    }

    /// The parsed contents, to be changed in place, if they have been parsed.
    pub fn get_mut(&mut self) -> (r: Option<&mut T>)
        ensures
            match *old(self) {
                Deferred::Evaluated(x) => r matches Some(m) && *m == x && *final(self) == Deferred::<T>::Evaluated(*final(m)),
                Deferred::Deferred(_) => r is None && *final(self) == *old(self),
            },
    {
        match self {
            Deferred::Evaluated(x) => Some(x),
            Deferred::Deferred(_) => None,
        }
    }

    /// Whether the inner contents have fully been parsed.
    pub fn is_deferred(&self) -> (r: bool)
        ensures
            r == (self is Evaluated),
            r == (self.get_spec() is Some),
    {
        match self {
            Deferred::Deferred(_) => false,
            Deferred::Evaluated(_) => true,
        }
    }

    /// The parsed contents, if any.
    pub open spec fn get_spec(&self) -> Option<T> {
        match self {
            Deferred::Evaluated(x) => Some(*x),
            Deferred::Deferred(_) => None,
        }
    }
}

} // verus!
