//! Bulk ingestion and typed retrieval of financial statement records.
//!
//! Records of each statement type are encoded into positional wire rows that
//! follow the type's declared schema, streamed into a staging table under one
//! transaction, and decoded back from stored rows into typed records.

pub mod codec;
pub mod laws;
pub mod loader;
pub mod production;
pub mod reconcile;
pub mod registry;
pub mod schema;
pub mod staging;
pub mod users;
pub mod wire;
