//! ContextVM: the Model Context Protocol carried over Nostr events.

pub mod bridge_laws;
pub mod gateway;
pub mod protocol;
pub mod proxy;
pub mod rmcp_transport;
pub mod signer;
pub mod transport;
pub mod util;

pub use protocol::types::{
    CapabilityExclusion, EncryptionMode, GiftWrapMode, JsonRpcError, JsonRpcErrorResponse,
    JsonRpcMessage, JsonRpcNotification, JsonRpcRequest, JsonRpcResponse, ServerInfo,
};
