//! Verified core of an MCP server for a Stash media library: configuration
//! parsing, GraphQL filter construction, request and response handling, and
//! the statistics the server's tools and resources report.

pub mod cli;
pub mod config;
pub mod error;
pub mod json;
pub mod mcp;
pub mod probe;
pub mod stash;
pub mod strmap;
pub mod text;
