//! The chunk type tag and the byte-level rules it is built on.

pub mod ascii;
pub mod chunk;
pub mod laws;
pub mod order;
pub mod text;
