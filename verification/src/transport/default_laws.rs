//! What clients and servers are like where nothing is configured.

use crate::protocol::types::{EncryptionMode, GiftWrapMode, ServerInfo};
use crate::transport::client::NostrClientTransportConfig;
use crate::transport::server::config::NostrServerTransportConfig;
use vstd::prelude::*;

verus! {

/// Encryption and both kinds of gift wraps are optional by default.
pub proof fn law_default_modes(mode: EncryptionMode, wraps: GiftWrapMode, info: ServerInfo)
    requires
        call_ensures(EncryptionMode::default, (), mode),
        call_ensures(GiftWrapMode::default, (), wraps),
        call_ensures(ServerInfo::default, (), info),
    ensures
        mode == EncryptionMode::Optional,
        wraps == GiftWrapMode::Optional,
        info.name is None && info.version is None && info.picture is None && info.website is None
            && info.about is None,
{
}

/// By default a server serves everybody on one relay, is not announced, and ends
/// sessions that were idle for five minutes, looking for them once a minute.
pub proof fn law_default_server(config: NostrServerTransportConfig)
    requires
        call_ensures(NostrServerTransportConfig::default, (), config),
    ensures
        config.relay_urls@.len() == 1,
        config.relay_urls@[0]@ == "wss://relay.damus.io"@,
        config.encryption_mode == EncryptionMode::Optional,
        config.gift_wrap_mode == GiftWrapMode::Optional,
        config.server_info is None,
        !config.is_announced_server,
        config.allowed_public_keys@.len() == 0,
        config.excluded_capabilities@.len() == 0,
        config.cleanup_interval.secs == 60 && config.cleanup_interval.nanos == 0,
        config.session_timeout.secs == 300 && config.session_timeout.nanos == 0,
        config.log_file_path is None,
{
}

/// By default a client asks on one relay, keeps state, and waits half a minute.
pub proof fn law_default_client(config: NostrClientTransportConfig)
    requires
        call_ensures(NostrClientTransportConfig::default, (), config),
    ensures
        config.relay_urls@.len() == 1,
        config.relay_urls@[0]@ == "wss://relay.damus.io"@,
        config.server_pubkey@ == ""@,
        config.encryption_mode == EncryptionMode::Optional,
        config.gift_wrap_mode == GiftWrapMode::Optional,
        !config.is_stateless,
        config.timeout.secs == 30 && config.timeout.nanos == 0,
        config.log_file_path is None,
{
}

} // verus!
