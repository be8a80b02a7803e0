//! Conversion between this library's messages and those of `rmcp`.
//!
//! The two meet in JSON: a message of `rmcp` is held as the value that it is
//! written as.

use crate::protocol::json::{from_serde, to_serde, Json, JsonView};
use crate::protocol::types::{optional_view, JsonRpcMessage};
use crate::protocol::wire::{message_of, message_to_value, message_value, read_message};
use vstd::prelude::*;

verus! {

/// The message, as `rmcp` writes it, that `rmcp` reads from a value as one that
/// a server receives; `None` where it is none.
pub uninterp spec fn rmcp_server_rx(value: JsonView) -> Option<JsonView>;

/// The message, as `rmcp` writes it, that `rmcp` reads from a value as one that
/// a client receives; `None` where it is none.
pub uninterp spec fn rmcp_client_rx(value: JsonView) -> Option<JsonView>;

/// Reads a value with `serde_json::from_value` as
/// `rmcp::service::RxJsonRpcMessage<rmcp::RoleServer>`, and writes the message
/// with `serde_json::to_value`.
///
/// Taken on trust: that the result is a function of the value alone.
#[verifier::external_body]
fn read_server_rx(value: &Json) -> (message: Option<Json>)
    ensures
        optional_view(message) == rmcp_server_rx(value@),
{
    serde_json::from_value::<rmcp::service::RxJsonRpcMessage<rmcp::RoleServer>>(to_serde(value))
        .ok()
        .and_then(|message| serde_json::to_value(message).ok())
        .map(from_serde)
}

/// Reads a value with `serde_json::from_value` as
/// `rmcp::service::RxJsonRpcMessage<rmcp::RoleClient>`, and writes the message
/// with `serde_json::to_value`.
///
/// Taken on trust: that the result is a function of the value alone.
#[verifier::external_body]
fn read_client_rx(value: &Json) -> (message: Option<Json>)
    ensures
        optional_view(message) == rmcp_client_rx(value@),
{
    serde_json::from_value::<rmcp::service::RxJsonRpcMessage<rmcp::RoleClient>>(to_serde(value))
        .ok()
        .and_then(|message| serde_json::to_value(message).ok())
        .map(from_serde)
}

/// Convert a message into one that an `rmcp` server receives.
///
/// Role mapping: a server receives what a client sends.
pub fn internal_to_rmcp_server_rx(msg: &JsonRpcMessage) -> (message: Option<Json>)
    ensures
        optional_view(message) == rmcp_server_rx(message_value(msg@)),
{
    let value = message_to_value(msg);
    read_server_rx(&value)
}

/// Convert a message into one that an `rmcp` client receives.
///
/// Role mapping: a client receives what a server sends.
pub fn internal_to_rmcp_client_rx(msg: &JsonRpcMessage) -> (message: Option<Json>)
    ensures
        optional_view(message) == rmcp_client_rx(message_value(msg@)),
{
    let value = message_to_value(msg);
    read_client_rx(&value)
}

/// Convert a message that an `rmcp` server sends, as `rmcp` writes it.
pub fn rmcp_server_tx_to_internal(msg: &Json) -> (message: Option<JsonRpcMessage>)
    ensures
        match message {
            Some(m) => message_of(msg@) == Some(m@),
            None => message_of(msg@) is None,
        },
{
    read_message(msg)
}

/// Convert a message that an `rmcp` client sends, as `rmcp` writes it.
pub fn rmcp_client_tx_to_internal(msg: &Json) -> (message: Option<JsonRpcMessage>)
    ensures
        match message {
            Some(m) => message_of(msg@) == Some(m@),
            None => message_of(msg@) is None,
        },
{
    read_message(msg)
}

} // verus!
