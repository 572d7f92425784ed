//! The SEP-41 invoice token.
pub mod contract;
pub mod errors;
pub mod events;
pub mod laws;
pub mod model;
pub mod storage;
pub mod types;
