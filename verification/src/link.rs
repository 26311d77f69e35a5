//! The DNP3 link layer.
pub mod crc;
pub mod header;
pub mod parser;
pub mod format;
