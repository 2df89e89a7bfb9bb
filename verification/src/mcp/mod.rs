//! The Model Context Protocol server.

pub mod server;
