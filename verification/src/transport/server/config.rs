//! How a server is set up.

use crate::protocol::types::{CapabilityExclusion, EncryptionMode, GiftWrapMode, ServerInfo};
use crate::util::time::Duration;
use vstd::prelude::*;

verus! {

/// Configuration for the server transport.
#[derive(Debug)]
pub struct NostrServerTransportConfig {
    /// Relay URLs to connect to.
    pub relay_urls: Vec<String>,
    /// Encryption mode.
    pub encryption_mode: EncryptionMode,
    /// Gift-wrap policy for encrypted messages.
    pub gift_wrap_mode: GiftWrapMode,
    /// Server information for announcements.
    pub server_info: Option<ServerInfo>,
    /// Whether this server publishes public announcements.
    pub is_announced_server: bool,
    /// Allowed client public keys (hex). Empty = allow all.
    pub allowed_public_keys: Vec<String>,
    /// Capabilities excluded from pubkey whitelisting.
    pub excluded_capabilities: Vec<CapabilityExclusion>,
    /// Session cleanup interval (default: 60s).
    pub cleanup_interval: Duration,
    /// Session timeout (default: 300s).
    pub session_timeout: Duration,
    /// Optional log file path. Logs always go to stdout and are also appended here when set.
    pub log_file_path: Option<String>,
}

impl Default for NostrServerTransportConfig {
    fn default() -> (config: Self)
        ensures
            config.relay_urls@.len() == 1,
            config.relay_urls@[0]@ == "wss://relay.damus.io"@,
            config.encryption_mode == EncryptionMode::Optional,
            config.gift_wrap_mode == GiftWrapMode::Optional,
            config.server_info is None,
            !config.is_announced_server,
            config.allowed_public_keys@.len() == 0,
            config.excluded_capabilities@.len() == 0,
            config.cleanup_interval == (Duration { secs: 60, nanos: 0 }),
            config.session_timeout == (Duration { secs: 300, nanos: 0 }),
            config.log_file_path is None,
    {
        let mut relay_urls: Vec<String> = Vec::new();
        relay_urls.push("wss://relay.damus.io".to_owned());
        NostrServerTransportConfig {
            relay_urls,
            encryption_mode: EncryptionMode::Optional,
            gift_wrap_mode: GiftWrapMode::Optional,
            server_info: None,
            is_announced_server: false,
            allowed_public_keys: Vec::new(),
            excluded_capabilities: Vec::new(),
            cleanup_interval: Duration::from_secs(60),
            session_timeout: Duration::from_secs(300),
            log_file_path: None,
        }
    }
}

} // verus!
