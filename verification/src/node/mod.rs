pub mod defer;
pub mod node;
pub mod refs;
pub mod root;
