//! Stitch: the verified core of a newline-delimited JSON-RPC bridge between a
//! host process and a sidecar child process.

pub mod json;
pub mod lines;
pub mod text;
pub mod wire;
pub mod pending;
pub mod reader;
pub mod protocol;
pub mod client;
pub mod supervisor;
pub mod laws;
