//! The invoice escrow.
pub mod contract;
pub mod effects;
pub mod events;
pub mod errors;
pub mod laws;
pub mod model;
pub mod storage;
pub mod types;
