//! Verified core of the Valknut command-line front end: output formats,
//! report labels, layered configuration, quality gates, the documentation
//! audit settings and the MCP JSON-RPC request handling.

pub mod format;
pub mod text;
pub mod labels;
pub mod args;
pub mod config;
pub mod quality_gates;
pub mod cache;
pub mod json;
pub mod mcp;
pub mod doc_audit;
pub mod report;
pub mod display;
pub mod overview;
