//! DNP3 link-layer frame parsing and master-side task decisions, with
//! contracts proved by Verus.
pub mod app;
pub mod error;
pub mod link;
pub mod master;
pub mod schema;
pub mod util;
