pub mod arc;
pub mod bits;
pub mod brres;
pub mod chr0;
pub mod encoding;
pub mod mdl0;
pub mod pat0;
