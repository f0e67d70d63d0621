//! Client-side core of a Versioned Storage Service (VSS): authenticated
//! encryption of JSON payloads, per-key optimistic versioning, and the
//! request/response protocol of the three store operations.

pub mod client;
pub mod codec;
pub mod error;
pub mod item;
pub mod json;
pub mod key;
pub mod wire;
