//! A small JSON-RPC request dispatcher for a tool-invocation protocol.
//!
//! A request names a method; the server answers `initialize`,
//! `tools/list` and `tools/call`, and reports every failure as an error
//! object inside the response.

pub mod json;
pub mod laws;
pub mod protocol;
pub mod registry;
pub mod server;
pub mod transport;
pub mod wire;

pub use json::{Json, JsonNumber, JsonValue};
pub use protocol::{McpError, McpRequest, McpResponse, Tool};
pub use registry::ToolRegistry;
pub use server::McpServer;
