//! The master station: its session with the outstations and its tasks.
pub mod association;
pub mod command;
pub mod error;
pub mod session;
