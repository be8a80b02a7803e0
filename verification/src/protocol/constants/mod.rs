//! Event kinds, sizes, method names and versions of the protocol.

use vstd::prelude::*;

pub mod tags;

verus! {

/// ContextVM messages (ephemeral events).
pub const CTXVM_MESSAGES_KIND: u16 = 25910;

/// Encrypted messages in a persistent gift wrap.
pub const GIFT_WRAP_KIND: u16 = 1059;

/// Encrypted messages in an ephemeral gift wrap.
pub const EPHEMERAL_GIFT_WRAP_KIND: u16 = 21059;

/// Server announcement (addressable).
pub const SERVER_ANNOUNCEMENT_KIND: u16 = 11316;

/// Tools list (addressable).
pub const TOOLS_LIST_KIND: u16 = 11317;

/// Resources list (addressable).
pub const RESOURCES_LIST_KIND: u16 = 11318;

/// Resource templates list (addressable).
pub const RESOURCETEMPLATES_LIST_KIND: u16 = 11319;

/// Prompts list (addressable).
pub const PROMPTS_LIST_KIND: u16 = 11320;

/// Deletion request.
pub const DELETION_KIND: u16 = 5;

/// Maximum message size (1MB).
pub const MAX_MESSAGE_SIZE: usize = 1024 * 1024;

/// Kinds that should never be encrypted (public announcements).
pub const UNENCRYPTED_KINDS: [u16; 5] = [
    SERVER_ANNOUNCEMENT_KIND,
    TOOLS_LIST_KIND,
    RESOURCES_LIST_KIND,
    RESOURCETEMPLATES_LIST_KIND,
    PROMPTS_LIST_KIND,
];

/// How many gift-wrap ids are remembered against redelivery.
pub const DEFAULT_LRU_SIZE: usize = 5000;

/// The JSON-RPC version of every message.
pub const JSONRPC_VERSION: &'static str = "2.0";

/// The MCP protocol version that an emulated server reports.
pub const MCP_PROTOCOL_VERSION: &'static str = "2025-03-26";

/// The method that opens an MCP session.
pub const INITIALIZE_METHOD: &'static str = "initialize";

/// The notification that a client sends once it is initialized.
pub const NOTIFICATIONS_INITIALIZED_METHOD: &'static str = "notifications/initialized";

/// The notification that reports progress on a request.
pub const NOTIFICATIONS_PROGRESS_METHOD: &'static str = "notifications/progress";

/// Whether events of that kind are public announcements.
pub open spec fn is_announcement_kind(kind: u16) -> bool {
    ||| kind == SERVER_ANNOUNCEMENT_KIND
    ||| kind == TOOLS_LIST_KIND
    ||| kind == RESOURCES_LIST_KIND
    ||| kind == RESOURCETEMPLATES_LIST_KIND
    ||| kind == PROMPTS_LIST_KIND
}

/// The MCP protocol version that an emulated server reports.
pub fn mcp_protocol_version() -> (version: &'static str)
    ensures
        version@ == MCP_PROTOCOL_VERSION@,
{
    MCP_PROTOCOL_VERSION
}

/// Whether the kind is one of [`UNENCRYPTED_KINDS`].
pub fn is_unencrypted_kind(kind: u16) -> (unencrypted: bool)
    ensures
        unencrypted == is_announcement_kind(kind),
{
    let mut i: usize = 0;
    while i < 5
        invariant
            i <= 5,
            forall|j: int| 0 <= j < i ==> UNENCRYPTED_KINDS@[j] != kind,
        decreases 5 - i,
    {
        if UNENCRYPTED_KINDS[i] == kind {
            return true;
        }
        i = i + 1;
    }
    assert(UNENCRYPTED_KINDS@[0] != kind && UNENCRYPTED_KINDS@[1] != kind && UNENCRYPTED_KINDS@[2]
        != kind && UNENCRYPTED_KINDS@[3] != kind && UNENCRYPTED_KINDS@[4] != kind);
    false
}

} // verus!
