//! The wire format: MCP messages carried in Nostr events, signed for real.

use contextvm_sdk::protocol::constants::{
    mcp_protocol_version, tags, CTXVM_MESSAGES_KIND, INITIALIZE_METHOD,
    NOTIFICATIONS_INITIALIZED_METHOD,
};
use contextvm_sdk::protocol::json::Json;
use contextvm_sdk::protocol::nostr::{read_verified_event, Event, EventId, EventTemplate, PublicKey};
use contextvm_sdk::protocol::serializers::{
    get_tag_value, mcp_to_nostr_event, nostr_event_to_mcp_message,
};
use contextvm_sdk::protocol::types::{
    JsonRpcMessage, JsonRpcNotification, JsonRpcRequest, JsonRpcResponse,
};
use contextvm_sdk::transport::base::BaseTransport;
use nostr_sdk::{EventBuilder, Keys, Kind};

fn json(text: &str) -> Json {
    Json::from_text(text).expect("valid JSON")
}

fn key(keys: &Keys) -> PublicKey {
    PublicKey::from_hex(&keys.public_key().to_hex()).unwrap()
}

/// Signs a template, writes the event out and reads it back.
fn sign(template: &EventTemplate, keys: &Keys) -> Event {
    let tags = template
        .tags
        .iter()
        .map(|tag| nostr_sdk::Tag::parse(tag.to_vec()).unwrap());
    let event = EventBuilder::new(Kind::Custom(template.kind), template.content.clone())
        .tags(tags)
        .sign_with_keys(keys)
        .expect("sign event");
    let text = serde_json::to_string(&event).unwrap();
    read_verified_event(&text).expect("signed event verifies")
}

fn assert_ctxvm_message_kind(event: &Event) {
    assert_eq!(
        event.kind, CTXVM_MESSAGES_KIND,
        "ContextVM MCP messages must use kind {}",
        CTXVM_MESSAGES_KIND
    );
}

fn p_tag_hex(event: &Event) -> Option<String> {
    get_tag_value(&event.tags, tags::PUBKEY)
}

fn e_tag_hex(event: &Event) -> Option<String> {
    get_tag_value(&event.tags, tags::EVENT_ID)
}

// ── Initialize request ───────────────────────────────────────────────────────

#[test]
fn ctxvm_initialize_request_has_kind_p_tag_and_jsonrpc_initialize() {
    let server_keys = Keys::generate();
    let server_pk = key(&server_keys);

    let init_req = JsonRpcMessage::Request(JsonRpcRequest {
        jsonrpc: "2.0".to_string(),
        id: json("1"),
        method: INITIALIZE_METHOD.to_string(),
        params: Some(json(&format!(
            r#"{{"protocolVersion":"{}","capabilities":{{}},
                "clientInfo":{{"name":"conformance-test","version":"0.0.0"}}}}"#,
            mcp_protocol_version()
        ))),
    });

    let recipient_tags = BaseTransport::create_recipient_tags(&server_pk);
    let template = mcp_to_nostr_event(&init_req, CTXVM_MESSAGES_KIND, recipient_tags);

    let client_keys = Keys::generate();
    let event = sign(&template, &client_keys);

    assert_ctxvm_message_kind(&event);
    assert_eq!(
        p_tag_hex(&event),
        Some(server_pk.to_hex()),
        "initialize request must target the server via p tag"
    );
    assert_eq!(event.pubkey.to_hex(), client_keys.public_key().to_hex());

    let msg = nostr_event_to_mcp_message(&event.content)
        .expect("event content should be valid JSON-RPC");
    assert!(msg.is_request());
    assert_eq!(msg.method(), Some(INITIALIZE_METHOD));

    // Parse at the raw JSON level to verify wire format independently of the typed deserializer.
    let v: serde_json::Value =
        serde_json::from_str(&event.content).expect("content must be JSON object");
    assert_eq!(v["jsonrpc"], "2.0");
    assert_eq!(v["id"], 1);
}

// ── Initialize response ──────────────────────────────────────────────────────

#[test]
fn ctxvm_initialize_response_has_kind_e_tag_and_result_protocol_version() {
    let server_keys = Keys::generate();
    let server_pk = key(&server_keys);
    let client_keys = Keys::generate();
    let client_pk = key(&client_keys);

    // Signed request event provides the Nostr event id referenced by e on the response.
    let init_req = JsonRpcMessage::Request(JsonRpcRequest {
        jsonrpc: "2.0".to_string(),
        id: json("\"corr-1\""),
        method: INITIALIZE_METHOD.to_string(),
        params: Some(json("{}")),
    });
    let recipient_tags = BaseTransport::create_recipient_tags(&server_pk);
    let request_event = sign(
        &mcp_to_nostr_event(&init_req, CTXVM_MESSAGES_KIND, recipient_tags),
        &client_keys,
    );

    let init_resp = JsonRpcMessage::Response(JsonRpcResponse {
        jsonrpc: "2.0".to_string(),
        id: json("\"corr-1\""),
        result: json(&format!(
            r#"{{"protocolVersion":"{}",
                "serverInfo":{{"name":"conformance-test-server","version":"0.0.0"}},
                "capabilities":{{}}}}"#,
            mcp_protocol_version()
        )),
    });

    let response_tags = BaseTransport::create_response_tags(&client_pk, &request_event.id);
    let response_event = sign(
        &mcp_to_nostr_event(&init_resp, CTXVM_MESSAGES_KIND, response_tags),
        &server_keys,
    );

    assert_ctxvm_message_kind(&response_event);
    assert_eq!(
        p_tag_hex(&response_event),
        Some(client_pk.to_hex()),
        "initialize response must route back to the client via p tag"
    );
    assert_eq!(
        e_tag_hex(&response_event),
        Some(request_event.id.to_hex()),
        "initialize response must correlate to the request Nostr event via e tag"
    );

    let v: serde_json::Value =
        serde_json::from_str(&response_event.content).expect("content must be JSON");
    assert_eq!(v["jsonrpc"], "2.0");
    assert_eq!(v["id"], "corr-1");
    assert!(v["result"]["protocolVersion"].is_string());
    assert!(v["result"]["serverInfo"]["name"].is_string());
}

// ── notifications/initialized ──────────────────────────────────────────────

#[test]
fn ctxvm_notifications_initialized_has_kind_p_tag_and_method() {
    let server_keys = Keys::generate();
    let server_pk = key(&server_keys);
    let client_keys = Keys::generate();

    let notif = JsonRpcMessage::Notification(JsonRpcNotification {
        jsonrpc: "2.0".to_string(),
        method: NOTIFICATIONS_INITIALIZED_METHOD.to_string(),
        params: None,
    });

    let recipient_tags = BaseTransport::create_recipient_tags(&server_pk);
    // Client sends this to the server; signer must differ from `p` so the tag is not stripped.
    let event = sign(
        &mcp_to_nostr_event(&notif, CTXVM_MESSAGES_KIND, recipient_tags),
        &client_keys,
    );

    assert_ctxvm_message_kind(&event);
    assert_eq!(
        p_tag_hex(&event),
        Some(server_pk.to_hex()),
        "initialized notification must include server p tag"
    );

    let msg = nostr_event_to_mcp_message(&event.content).expect("parse content");
    assert!(msg.is_notification());
    assert_eq!(msg.method(), Some(NOTIFICATIONS_INITIALIZED_METHOD));

    // Parse at the raw JSON level to verify wire format independently of the typed deserializer.
    let v: serde_json::Value =
        serde_json::from_str(&event.content).expect("content must be JSON object");
    assert_eq!(v["jsonrpc"], "2.0");
    assert!(
        v.get("id").map_or(true, serde_json::Value::is_null),
        "JSON-RPC notifications must not include an id"
    );
}

// ── Events that do not verify ────────────────────────────────────────────────

#[test]
fn forged_events_are_not_read() {
    let keys = Keys::generate();
    let event = EventBuilder::new(Kind::Custom(CTXVM_MESSAGES_KIND), "hello")
        .sign_with_keys(&keys)
        .unwrap();
    let text = serde_json::to_string(&event).unwrap();
    let read = read_verified_event(&text).expect("a signed event is read");
    assert_eq!(read.id.to_hex(), event.id.to_hex());
    assert_eq!(read.content, "hello");
    assert!(EventId::from_hex(&read.id.to_hex()).is_ok());
    assert!(read_verified_event(&text.replace("hello", "hullo")).is_none());
    assert!(read_verified_event("{}").is_none());
}
