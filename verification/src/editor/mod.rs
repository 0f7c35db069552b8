//! State of the editor page that does not depend on the user interface.
pub mod editor;
pub mod tiles;
