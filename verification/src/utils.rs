//! Errors and the conversions between the shapes that records and metadata
//! take on their way to the store.

pub mod conversions;
pub mod dynamic_conversions;
pub mod errors;
