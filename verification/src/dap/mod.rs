//! The debug adapter protocol.
pub mod types;
