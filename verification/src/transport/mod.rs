//! Client and server transports: MCP messages carried by Nostr events.

pub mod base;
pub mod base_laws;
pub mod broadcast;
pub mod client;
pub mod dedup;
pub mod default_laws;
pub mod expiry;
pub mod inbound;
pub mod laws;
pub mod policy;
pub mod policy_laws;
pub mod server;
pub mod session_server;
