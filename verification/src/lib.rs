//! A protocol adapter for the Semgrep analysis engine: it answers JSON-RPC
//! requests, one per line, that list and call tools, prompts and resources.
//!
//! The library decides and the caller acts. Every message is read, told
//! apart, dispatched and answered here; running the engine, asking the
//! findings service and moving lines in and out are left to the caller, who
//! is told what to do step by step.

pub mod api_client;
pub mod codec;
pub mod handler;
pub mod json;
pub mod protocol;
pub mod registry;
pub mod schema;
pub mod semgrep_wrapper;
pub mod server;
pub mod text;
pub mod transport;
