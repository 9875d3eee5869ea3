//! Composable middleware for the Agent-Client Protocol: the message model,
//! the routing rules of the conductor, the capability handshake and the
//! MCP-over-ACP bridge, with the configuration rules that surround them.

pub mod text;
pub mod numeral;
pub mod text_map;
pub mod json;
pub mod error;
pub mod jsonrpc;
pub mod framing;
pub mod pending;
pub mod handlers;
pub mod connection;
pub mod acp;
pub mod acp_client;
pub mod capability;
pub mod conductor;
pub mod mcp_over_acp;
pub mod mcp_server;
pub mod mcp_bridge;
pub mod proxy;
pub mod editor_context;
pub mod crate_sources;
pub mod source;
pub mod when;
pub mod workspace;
pub mod user_config;
pub mod paths;
pub mod config;
pub mod recommendations;
pub mod config_mode;
pub mod vscodelm;
