//! What the client decides around its calls to the controller and to an
//! index: how a failure of the controller is reported, what a description of
//! the controller means, which settings hold, and which calls are refused
//! before they are made.

pub mod control_plane;
pub mod grpc;
pub mod index;
pub mod pinecone_client;
