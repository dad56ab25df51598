//! Transport and session core of a remote-administration tool: SSH
//! connection setup and authentication decisions, the per-channel I/O
//! multiplexer, terminal sessions and the session registry.
pub mod files;
pub mod mcp;
pub mod models;
pub mod mux;
pub mod permissions;
pub mod registry;
pub mod session;
pub mod ssh;
pub mod terminal;
pub mod text;
pub mod transport;
pub mod vault;
