//! Message validation.

use crate::protocol::constants::{JSONRPC_VERSION, MAX_MESSAGE_SIZE};
use crate::protocol::json::{json_parse, member_text, parse, Json, JsonView};
use crate::protocol::types::{JsonRpcMessage, MessageView};
use crate::protocol::wire::{
    law_message_value_round_trip, message_fits, message_layout, message_of, message_text,
    message_value, read_message, settled_message,
};
use crate::util::text::same_text;
use vstd::prelude::*;

verus! {

/// Whether a text is no longer than a message may be, counted in bytes.
pub open spec fn size_allowed(content: Seq<char>) -> bool {
    vstd::utf8::encode_utf8(content).len() <= MAX_MESSAGE_SIZE
}

/// The message that a value holds, where it names the right JSON-RPC version.
pub open spec fn valid_message_of(value: JsonView) -> Option<MessageView> {
    if member_text(value, "jsonrpc"@) == Some(JSONRPC_VERSION@) {
        message_of(value)
    } else {
        None
    }
}

/// The message that a text holds, where it is not too long and names the right
/// JSON-RPC version.
pub open spec fn valid_content(content: Seq<char>) -> Option<MessageView> {
    if size_allowed(content) {
        match json_parse(content) {
            Some(value) => valid_message_of(value),
            None => None,
        }
    } else {
        None
    }
}

/// The JSON-RPC version that a message names.
pub open spec fn version_of(message: MessageView) -> Seq<char> {
    match message {
        MessageView::Request(r) => r.jsonrpc,
        MessageView::Response(r) => r.jsonrpc,
        MessageView::ErrorResponse(r) => r.jsonrpc,
        MessageView::Notification(n) => n.jsonrpc,
    }
}

/// Validate that a message's content doesn't exceed the maximum size (1MB).
pub fn validate_message_size(content: &str) -> (allowed: bool)
    ensures
        allowed == size_allowed(content@),
{
    content.as_bytes().len() <= MAX_MESSAGE_SIZE
}

/// Validate that a JSON value is a well-formed JSON-RPC 2.0 message.
///
/// Checks:
/// - Has `jsonrpc: "2.0"`
/// - Is one of: request (id + method), response (id + result), error (id + error), notification (method, no id)
pub fn validate_message(value: &Json) -> (message: Option<JsonRpcMessage>)
    ensures
        match message {
            Some(m) => valid_message_of(value@) == Some(m@),
            None => valid_message_of(value@) is None,
        },
{
    match value.get("jsonrpc") {
        Some(found) => match found.as_str() {
            Some(version) => if same_text(version, JSONRPC_VERSION) {
                read_message(value)
            } else {
                None
            },
            None => None,
        },
        None => None,
    }
}

/// Every valid message names the JSON-RPC version 2.0.
pub proof fn law_valid_message_version(value: JsonView)
    ensures
        valid_message_of(value) is Some ==> version_of(valid_message_of(value)->0)
            == JSONRPC_VERSION@,
{
}

/// A message that names the right version is valid once written.
pub proof fn law_written_message_valid(message: MessageView)
    requires
        version_of(message) == JSONRPC_VERSION@,
    ensures
        valid_message_of(message_value(message)) == Some(settled_message(message)),
{
    law_message_value_round_trip(message);
    assert(message_of(message_value(message)) is Some);
}

/// Validate size and structure, then parse into a [`JsonRpcMessage`].
///
/// A message that names the right version, is not too long once written and does
/// not nest too deep is read back.
pub fn validate_and_parse(content: &str) -> (message: Option<JsonRpcMessage>)
    ensures
        match message {
            Some(m) => valid_content(content@) == Some(m@),
            None => valid_content(content@) is None,
        },
        forall|m: MessageView|
            #![trigger message_text(m)]
            {
                &&& message_text(m) == content@
                &&& message_fits(m)
                &&& version_of(m) == JSONRPC_VERSION@
                &&& size_allowed(content@)
            } ==> message is Some && message->0@ == settled_message(m),
{
    if !validate_message_size(content) {
        return None;
    }
    let parsed = parse(content);
    proof {
        assert forall|m: MessageView|
            {
                &&& #[trigger] message_text(m) == content@
                &&& message_fits(m)
                &&& version_of(m) == JSONRPC_VERSION@
                &&& size_allowed(content@)
            } implies valid_content(content@) == Some(settled_message(m)) by {
            law_written_message_valid(m);
            assert(content@ == crate::protocol::json::layout_text(message_layout(m)));
            assert(parsed->0@ == message_value(m));
        }
    }
    match parsed {
        Some(value) => validate_message(&value),
        None => None,
    }
}

} // verus!
