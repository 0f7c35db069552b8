//! Readers for the Nintendo Wii container and model formats used by Mario Kart Wii
//! (ARC archives, BRRES resource files and their CHR0 / MDL0 subfiles), together with
//! the tree of virtual nodes that the editor shows for an opened file.
//!
//! Every parser works on a [`shared::util::RefCursor`] and is verified against a
//! byte-level description of the format it reads.
pub mod decorations;
pub mod editor;
pub mod error;
pub mod format;
pub mod inspector;
pub mod node;
pub mod shared;
