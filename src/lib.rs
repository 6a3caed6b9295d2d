//! Incremental parsing of the raw chunk structure of PNG streams.
pub mod laws;
pub mod raw;
pub mod source;
pub mod util;
