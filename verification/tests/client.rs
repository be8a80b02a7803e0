//! The client transport.

use contextvm_sdk::protocol::constants::{
    mcp_protocol_version, CTXVM_MESSAGES_KIND, EPHEMERAL_GIFT_WRAP_KIND, GIFT_WRAP_KIND,
    INITIALIZE_METHOD,
};
use contextvm_sdk::protocol::json::Json;
use contextvm_sdk::protocol::nostr::{Event, EventId, PublicKey, Tag};
use contextvm_sdk::protocol::types::{
    EncryptionMode, GiftWrapMode, JsonRpcMessage, JsonRpcNotification, JsonRpcRequest,
};
use contextvm_sdk::signer;
use contextvm_sdk::transport::client::{
    is_gift_wrap_kind, violates_encryption_policy, NostrClientTransport,
    NostrClientTransportConfig, Received, Sending,
};
use contextvm_sdk::util::time::Duration;

fn json(text: &str) -> Json {
    Json::from_text(text).expect("valid JSON")
}

fn request(id: &str, method: &str) -> JsonRpcMessage {
    JsonRpcMessage::Request(JsonRpcRequest {
        jsonrpc: "2.0".to_string(),
        id: json(id),
        method: method.to_string(),
        params: None,
    })
}

fn make_stateless_transport() -> NostrClientTransport {
    let config = NostrClientTransportConfig {
        relay_urls: Vec::new(),
        server_pubkey: signer::generate().public_key().to_hex(),
        encryption_mode: EncryptionMode::Optional,
        is_stateless: true,
        timeout: Duration::from_secs(1),
        ..Default::default()
    };
    NostrClientTransport::new(config).expect("transport should be constructed")
}

#[test]
fn client_test_config_defaults() {
    let config = NostrClientTransportConfig::default();
    assert_eq!(config.relay_urls, vec!["wss://relay.damus.io".to_string()]);
    assert!(config.server_pubkey.is_empty());
    assert_eq!(config.encryption_mode, EncryptionMode::Optional);
    assert!(!config.is_stateless);
    assert_eq!(config.timeout, Duration::from_secs(30));
    assert!(config.log_file_path.is_none());
}

#[test]
fn test_stateless_config() {
    let config = NostrClientTransportConfig {
        is_stateless: true,
        ..Default::default()
    };
    assert!(config.is_stateless);
}

#[test]
fn test_stateless_emulated_initialize_response_shape() {
    // Verify the emulated response has the expected structure
    let response = NostrClientTransport::emulate_initialize_response(&json("1"));
    assert!(response.is_response());
    assert_eq!(response.id(), Some(&json("1")));

    if let JsonRpcMessage::Response(r) = &response {
        assert!(r.result.get("capabilities").is_some());
        assert!(r.result.get("serverInfo").is_some());
        let server_info = r.result.get("serverInfo").unwrap();
        assert_eq!(
            server_info.get("name").unwrap().as_str().unwrap(),
            "Emulated-Stateless-Server"
        );
        assert_eq!(
            r.result.to_text(),
            format!(
                "{{\"capabilities\":{{\"prompts\":{{\"listChanged\":true}},\
                 \"resources\":{{\"listChanged\":true,\"subscribe\":true}},\
                 \"tools\":{{\"listChanged\":true}}}},\
                 \"protocolVersion\":\"{}\",\
                 \"serverInfo\":{{\"name\":\"Emulated-Stateless-Server\",\"version\":\"1.0.0\"}}}}",
                mcp_protocol_version()
            )
        );
    }
}

#[test]
fn test_stateless_mode_initialize_request_detection() {
    let init_req = request("1", "initialize");
    assert_eq!(init_req.method(), Some("initialize"));

    let init_notif = JsonRpcMessage::Notification(JsonRpcNotification {
        jsonrpc: "2.0".to_string(),
        method: "notifications/initialized".to_string(),
        params: None,
    });
    assert_eq!(init_notif.method(), Some("notifications/initialized"));
}

#[test]
fn test_gift_wrap_kind_detection() {
    assert!(is_gift_wrap_kind(GIFT_WRAP_KIND));
    assert!(is_gift_wrap_kind(EPHEMERAL_GIFT_WRAP_KIND));
    assert!(!is_gift_wrap_kind(CTXVM_MESSAGES_KIND));
}

#[test]
fn test_required_mode_drops_plaintext() {
    let plaintext_kind = CTXVM_MESSAGES_KIND;
    assert!(
        violates_encryption_policy(plaintext_kind, EncryptionMode::Required),
        "Required mode must reject plaintext (non-gift-wrap) events"
    );
}

#[test]
fn test_disabled_mode_drops_encrypted() {
    assert!(
        violates_encryption_policy(GIFT_WRAP_KIND, EncryptionMode::Disabled),
        "Disabled mode must reject gift-wrap events"
    );
    assert!(
        violates_encryption_policy(EPHEMERAL_GIFT_WRAP_KIND, EncryptionMode::Disabled),
        "Disabled mode must reject ephemeral gift-wrap events"
    );
}

#[test]
fn test_optional_mode_accepts_all() {
    for kind in [CTXVM_MESSAGES_KIND, GIFT_WRAP_KIND, EPHEMERAL_GIFT_WRAP_KIND] {
        assert!(!violates_encryption_policy(kind, EncryptionMode::Optional));
    }
}

#[test]
fn test_required_mode_accepts_encrypted() {
    assert!(
        !violates_encryption_policy(GIFT_WRAP_KIND, EncryptionMode::Required),
        "Required mode must accept gift-wrap events"
    );
    assert!(
        !violates_encryption_policy(EPHEMERAL_GIFT_WRAP_KIND, EncryptionMode::Required),
        "Required mode must accept ephemeral gift-wrap events"
    );
}

#[test]
fn test_disabled_mode_accepts_plaintext() {
    assert!(
        !violates_encryption_policy(CTXVM_MESSAGES_KIND, EncryptionMode::Disabled),
        "Disabled mode must accept plaintext events"
    );
}

// ── Without a session at the server ─────────────────────────────────────────

#[test]
fn create_emulated_response_returns_correct_request_id() {
    let transport = make_stateless_transport();

    let request = JsonRpcMessage::Request(JsonRpcRequest {
        jsonrpc: "2.0".to_string(),
        id: json("\"test-id\""),
        method: INITIALIZE_METHOD.to_string(),
        params: Some(json(&format!(
            r#"{{"protocolVersion":"{}","capabilities":{{}},
                "clientInfo":{{"name":"conformance-test","version":"0.0.0"}}}}"#,
            mcp_protocol_version()
        ))),
    });

    match transport.send(&request) {
        Sending::Emulated(JsonRpcMessage::Response(resp)) => {
            assert_eq!(resp.id, json("\"test-id\""));
            assert_eq!(resp.jsonrpc, "2.0");
            assert_eq!(
                resp.result.get("protocolVersion").and_then(Json::as_str),
                Some(mcp_protocol_version())
            );
            assert_eq!(
                resp.result
                    .get("serverInfo")
                    .and_then(|v| v.get("name"))
                    .and_then(Json::as_str),
                Some("Emulated-Stateless-Server")
            );
            assert_eq!(
                resp.result
                    .get("serverInfo")
                    .and_then(|v| v.get("version"))
                    .and_then(Json::as_str),
                Some("1.0.0")
            );
            assert_eq!(
                resp.result
                    .get("capabilities")
                    .and_then(|v| v.get("tools"))
                    .and_then(|v| v.get("listChanged"))
                    .and_then(Json::as_bool),
                Some(true)
            );
            assert_eq!(
                resp.result
                    .get("capabilities")
                    .and_then(|v| v.get("prompts"))
                    .and_then(|v| v.get("listChanged"))
                    .and_then(Json::as_bool),
                Some(true)
            );
            assert_eq!(
                resp.result
                    .get("capabilities")
                    .and_then(|v| v.get("resources"))
                    .and_then(|v| v.get("subscribe"))
                    .and_then(Json::as_bool),
                Some(true)
            );
            assert_eq!(
                resp.result
                    .get("capabilities")
                    .and_then(|v| v.get("resources"))
                    .and_then(|v| v.get("listChanged"))
                    .and_then(Json::as_bool),
                Some(true)
            );
        }
        other => panic!("expected an emulated response, got {other:?}"),
    }
}

#[test]
fn should_handle_statelessly_returns_true_for_initialize() {
    let transport = make_stateless_transport();
    match transport.send(&request("1", INITIALIZE_METHOD)) {
        Sending::Emulated(msg) => assert_eq!(msg.id(), Some(&json("1"))),
        other => panic!("initialize should be handled statelessly, got {other:?}"),
    }
    let notice = JsonRpcMessage::Notification(JsonRpcNotification {
        jsonrpc: "2.0".to_string(),
        method: "notifications/initialized".to_string(),
        params: None,
    });
    assert!(matches!(transport.send(&notice), Sending::Dropped));
}

#[test]
fn should_handle_statelessly_returns_false_for_other_methods() {
    let transport = make_stateless_transport();
    assert!(
        matches!(transport.send(&request("2", "tools/list")), Sending::Send(_)),
        "non-initialize request should not create a local emulated response"
    );
}

#[test]
fn session_is_opened_at_the_server_otherwise() {
    let config = NostrClientTransportConfig {
        server_pubkey: "ab".repeat(32),
        ..Default::default()
    };
    let transport = NostrClientTransport::new(config).unwrap();
    assert!(matches!(transport.send(&request("1", INITIALIZE_METHOD)), Sending::Send(_)));
}

// ── What goes out ───────────────────────────────────────────────────────────

#[test]
fn gift_wrap_follows_the_modes() {
    for (encryption_mode, gift_wrap_mode, expected) in [
        (EncryptionMode::Disabled, GiftWrapMode::Ephemeral, None),
        (EncryptionMode::Optional, GiftWrapMode::Optional, Some(GIFT_WRAP_KIND)),
        (EncryptionMode::Required, GiftWrapMode::Persistent, Some(GIFT_WRAP_KIND)),
        (EncryptionMode::Required, GiftWrapMode::Ephemeral, Some(EPHEMERAL_GIFT_WRAP_KIND)),
    ] {
        let transport = NostrClientTransport::new(NostrClientTransportConfig {
            server_pubkey: "ab".repeat(32),
            encryption_mode,
            gift_wrap_mode,
            ..Default::default()
        })
        .unwrap();
        let Sending::Send(outgoing) = transport.send(&request("1", "ping")) else {
            panic!("expected a message to send");
        };
        assert_eq!(outgoing.wrap_kind, expected);
        assert_eq!(outgoing.template.kind, CTXVM_MESSAGES_KIND);
        assert_eq!(outgoing.recipient.to_hex(), "ab".repeat(32));
        assert_eq!(
            outgoing.template.tags[0].to_vec(),
            vec!["p".to_string(), "ab".repeat(32)]
        );
    }
}

#[test]
fn server_key_has_to_be_a_key() {
    let error = match NostrClientTransport::new(NostrClientTransportConfig::default()) {
        Ok(_) => panic!("an empty key is none"),
        Err(error) => error,
    };
    let of_nostr = nostr_sdk::PublicKey::from_hex("").unwrap_err().to_string();
    assert_eq!(error.reason(), format!("Invalid server pubkey: {of_nostr}"));
}

// ── What comes in ───────────────────────────────────────────────────────────

fn server_event(sender: &str, correlated: Option<&str>, content: &str) -> Event {
    let mut tags = vec![Tag::custom("p", "me")];
    if let Some(id) = correlated {
        tags.push(Tag::custom("e", id));
    }
    Event {
        id: EventId::from_hex(&"0f".repeat(32)).unwrap(),
        pubkey: PublicKey::from_hex(sender).unwrap(),
        kind: CTXVM_MESSAGES_KIND,
        tags,
        content: content.to_string(),
    }
}

#[test]
fn only_awaited_answers_of_the_server_are_read() {
    let server = "ab".repeat(32);
    let request_event = "cd".repeat(32);
    let mut transport = NostrClientTransport::new(NostrClientTransportConfig {
        server_pubkey: server.clone(),
        ..Default::default()
    })
    .unwrap();
    let read = |transport: &mut NostrClientTransport, event: &Event| {
        match transport.on_event(event) {
            Received::Read(reply) => transport.on_reply(&reply),
            other => panic!("expected to read the event, got {other:?}"),
        }
    };
    let answer = r#"{"jsonrpc":"2.0","id":1,"result":{}}"#;

    // Not awaited.
    let event = server_event(&server, Some(&request_event), answer);
    assert!(read(&mut transport, &event).is_none());

    transport.message_sent(
        &request("1", "ping"),
        &EventId::from_hex(&request_event).unwrap(),
    );
    // Of another sender, and no message.
    let stranger = server_event(&"ba".repeat(32), Some(&request_event), answer);
    assert!(read(&mut transport, &stranger).is_none());
    let broken = server_event(&server, Some(&request_event), "{}");
    assert!(read(&mut transport, &broken).is_none());
    // Still awaited, and then answered, once.
    assert!(read(&mut transport, &event).unwrap().is_response());
    assert!(read(&mut transport, &event).is_none());
    // A message that answers nothing is read.
    let notice = server_event(&server, None, r#"{"jsonrpc":"2.0","method":"m"}"#);
    assert!(read(&mut transport, &notice).unwrap().is_notification());
}

#[test]
fn notifications_await_no_answer() {
    let mut transport = make_stateless_transport();
    let id = EventId::from_hex(&"cd".repeat(32)).unwrap();
    let notice = JsonRpcMessage::Notification(JsonRpcNotification {
        jsonrpc: "2.0".to_string(),
        method: "m".to_string(),
        params: None,
    });
    transport.message_sent(&notice, &id);
    assert!(!transport.pending_requests.contains(&id.to_hex()));
    transport.message_sent(&request("1", "m"), &id);
    assert!(transport.pending_requests.contains(&id.to_hex()));
}
