//! Control-plane core of a vector-index engine: the registry of live
//! indexes and the decisions of the engine's processing loop.

pub mod actor;
pub mod client;
pub mod engine;
pub mod ident;
pub mod laws;
pub mod message;
pub mod model;
pub mod registry;
