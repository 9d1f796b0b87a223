//! Four-byte chunk type tags of a chunked binary container: validated
//! construction from bytes and from text, a canonical rendering, and the
//! flags that the case of each byte encodes.

pub mod chunk_type;
