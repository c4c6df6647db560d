//! The MCP (Model Context Protocol) server: protocol types, tool parameters
//! and request handling.

pub mod protocol;
pub mod tools;
pub mod server;
pub mod manifest;
