//! The schema of the foreign-function bindings.
pub mod variation;
