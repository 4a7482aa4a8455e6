//! Client-side core of a vector store SDK: record normalization, the metadata
//! codec, and the state machine behind blocking index operations.

pub mod client;
pub mod data_types;
pub mod dynamic;
pub mod keyed;
pub mod metadata;
pub mod poller;
pub mod text;
pub mod upsert;
pub mod utils;
pub mod wire;
