//! Decision and text-building logic of the Ghost desktop automation server:
//! the MCP JSON-RPC framing and routing, the overlay action events, the journal
//! marker request, the wait conditions and the command line.

pub mod cli;
pub mod clock;
pub mod json;
pub mod mcp;
pub mod text;
pub mod tools;
