//! Byte-level helpers shared by the layers.
pub mod cursor;
