//! The flows of the server that keeps routes in the sessions.

use contextvm_sdk::protocol::constants::{EPHEMERAL_GIFT_WRAP_KIND, GIFT_WRAP_KIND};
use contextvm_sdk::protocol::error::Error;
use contextvm_sdk::protocol::json::Json;
use contextvm_sdk::protocol::nostr::{Event, EventId, PublicKey, Tag};
use contextvm_sdk::protocol::types::{
    EncryptionMode, GiftWrapMode, JsonRpcMessage, JsonRpcNotification, JsonRpcResponse, ServerInfo,
};
use contextvm_sdk::protocol::wire::read_message;
use contextvm_sdk::transport::base::StartEvent;
use contextvm_sdk::transport::inbound::{Delivery, Inbound, IncomingRequest, SkipReason};
use contextvm_sdk::transport::server::config::NostrServerTransportConfig;
use contextvm_sdk::transport::session_server::session::ClientSession;
use contextvm_sdk::transport::session_server::{Handled, NostrServerTransport};
use nostr_sdk::{EventBuilder, Keys, Kind};

fn json(text: &str) -> Json {
    Json::from_text(text).expect("valid JSON")
}

fn client() -> String {
    "ab".repeat(32)
}

fn event_id(byte: u8) -> String {
    format!("{byte:02x}").repeat(32)
}

fn server(gift_wrap_mode: GiftWrapMode) -> NostrServerTransport {
    let mut server = NostrServerTransport::new(NostrServerTransportConfig {
        gift_wrap_mode,
        server_info: Some(ServerInfo { name: Some("Demo".to_string()), ..Default::default() }),
        ..Default::default()
    });
    server.set_announcement_pricing_tags(vec![Tag::custom("cap", "tool")]);
    server
}

fn delivery(byte: u8, wrap_kind: Option<u16>, content: &str) -> Delivery {
    Delivery {
        content: content.to_string(),
        sender: PublicKey::from_hex(&client()).unwrap(),
        event_id: EventId::from_hex(&event_id(byte)).unwrap(),
        is_encrypted: wrap_kind.is_some(),
        wrap_kind,
    }
}

fn forward(server: &mut NostrServerTransport, delivery: &Delivery) -> IncomingRequest {
    match server.on_delivery(delivery) {
        Handled::Forward(incoming) => incoming,
        other => panic!("expected a message for the handler, got {other:?}"),
    }
}

fn response(result: &str) -> JsonRpcMessage {
    JsonRpcMessage::Response(JsonRpcResponse {
        jsonrpc: "2.0".to_string(),
        id: json("0"),
        result: json(result),
    })
}

fn progress(token: &str) -> JsonRpcMessage {
    JsonRpcMessage::Notification(JsonRpcNotification {
        jsonrpc: "2.0".to_string(),
        method: "notifications/progress".to_string(),
        params: Some(json(&format!(r#"{{"progressToken":"{token}","progress":1}}"#))),
    })
}

fn names(tags: &[Tag]) -> Vec<String> {
    tags.iter().map(|tag| tag.to_vec()[0].clone()).collect()
}

const CALL: &str = r#"{"jsonrpc":"2.0","id":"a","method":"tools/call","params":{"_meta":{"progressToken":"tok"}}}"#;
const LIST: &str = r#"{"jsonrpc":"2.0","id":5,"method":"tools/list"}"#;

#[test]
fn answer_goes_back_the_way_the_request_came() {
    let mut server = server(GiftWrapMode::Optional);
    let incoming = forward(&mut server, &delivery(1, Some(EPHEMERAL_GIFT_WRAP_KIND), CALL));
    assert_eq!(incoming.client_pubkey, client());
    assert_eq!(incoming.event_id, event_id(1));
    assert!(incoming.is_encrypted);

    let planned = server.send_response(&event_id(1), response("{}")).unwrap();
    assert_eq!(planned.outgoing.wrap_kind, Some(EPHEMERAL_GIFT_WRAP_KIND));
    assert_eq!(planned.outgoing.recipient.to_hex(), client());
    let answer = read_message(&json(&planned.outgoing.template.content)).unwrap();
    assert_eq!(answer.id(), Some(&json("\"a\"")));
    assert_eq!(
        names(&planned.outgoing.template.tags),
        vec!["p", "e", "name", "support_encryption", "support_encryption_ephemeral"]
    );
    assert_eq!(planned.outgoing.template.tags[1].to_vec()[1], event_id(1));

    server.response_sent(&event_id(1), &planned);
    let error = server.send_response(&event_id(1), response("{}")).unwrap_err();
    assert_eq!(
        error.reason(),
        format!("No client found for event {}", event_id(1))
    );
    let session = server.sessions.get(&client()).unwrap();
    assert!(session.pending_requests.is_empty());
    assert!(session.progress_token_to_event.is_empty());
    assert!(session.has_sent_common_tags);
}

#[test]
fn tags_of_an_answer_follow_what_it_says() {
    let mut server = server(GiftWrapMode::Persistent);
    forward(&mut server, &delivery(1, Some(GIFT_WRAP_KIND), LIST));
    let first = server.send_response(&event_id(1), response(r#"{"tools":[]}"#)).unwrap();
    assert_eq!(
        names(&first.outgoing.template.tags),
        vec!["p", "e", "name", "support_encryption", "cap"]
    );
    server.response_sent(&event_id(1), &first);

    forward(&mut server, &delivery(2, Some(GIFT_WRAP_KIND), LIST));
    let list = server.send_response(&event_id(2), response(r#"{"prompts":[]}"#)).unwrap();
    assert_eq!(names(&list.outgoing.template.tags), vec!["p", "e", "cap"]);
    let initialized = server
        .send_response(&event_id(2), response(r#"{"protocolVersion":"1","serverInfo":{}}"#))
        .unwrap();
    assert_eq!(names(&initialized.outgoing.template.tags), vec!["p", "e", "name"]);
    let plain = server.send_response(&event_id(2), response("{}")).unwrap();
    assert_eq!(names(&plain.outgoing.template.tags), vec!["p", "e"]);
}

#[test]
fn progress_finds_its_request() {
    let mut server = server(GiftWrapMode::Optional);
    forward(&mut server, &delivery(1, Some(EPHEMERAL_GIFT_WRAP_KIND), CALL));
    let outgoing = server.send_notification(&client(), &progress("tok"), None).unwrap();
    assert_eq!(outgoing.template.tags[1].to_vec(), vec!["e".to_string(), event_id(1)]);
    assert_eq!(outgoing.wrap_kind, Some(EPHEMERAL_GIFT_WRAP_KIND));
    let error = server
        .send_notification(&client(), &progress("other"), None)
        .unwrap_err();
    assert_eq!(
        error.reason(),
        format!("No request route found for progress token in client session {}", client())
    );
    // A request that is named counts before the token.
    let outgoing = server
        .send_notification(&client(), &progress("other"), Some(&event_id(9)))
        .unwrap();
    assert_eq!(outgoing.template.tags[1].to_vec()[1], event_id(9));
    assert_eq!(outgoing.wrap_kind, Some(GIFT_WRAP_KIND));
}

#[test]
fn answers_without_a_route_fail() {
    let mut server = server(GiftWrapMode::Optional);
    let reason = |server: &NostrServerTransport, id: &str| {
        server.send_response(id, response("{}")).unwrap_err().reason().to_string()
    };
    assert_eq!(reason(&server, "evt"), "No client found for event evt");
    server.event_to_client.insert("evt".to_string(), "nobody".to_string());
    assert_eq!(reason(&server, "evt"), "No session for client nobody");
    server.sessions.insert("nobody".to_string(), ClientSession::new(false));
    assert_eq!(reason(&server, "evt"), "No pending route for event evt");
    let error = server
        .send_notification("someone", &progress("tok"), None)
        .unwrap_err();
    assert_eq!(error.reason(), "No session for someone");
}

#[test]
fn clients_that_are_not_listed_are_refused() {
    let mut server = NostrServerTransport::new(NostrServerTransportConfig {
        allowed_public_keys: vec!["cd".repeat(32)],
        encryption_mode: EncryptionMode::Optional,
        ..Default::default()
    });
    match server.on_delivery(&delivery(1, None, LIST)) {
        Handled::Refused(Some(outgoing)) => {
            assert_eq!(outgoing.wrap_kind, None);
            let answer = read_message(&json(&outgoing.template.content)).unwrap();
            assert!(answer.is_error());
            assert_eq!(answer.id(), Some(&json("5")));
        }
        other => panic!("expected a refusal, got {other:?}"),
    }
    let notice = r#"{"jsonrpc":"2.0","method":"notifications/cancelled"}"#;
    assert!(matches!(
        server.on_delivery(&delivery(2, None, notice)),
        Handled::Refused(None)
    ));
    assert!(matches!(server.on_delivery(&delivery(3, None, "[]")), Handled::Invalid));
    assert!(server.sessions.is_empty());
}

#[test]
fn gift_wraps_are_read_once_opened() {
    let keys = Keys::generate();
    let inner = EventBuilder::new(Kind::Custom(25910), LIST).sign_with_keys(&keys).unwrap();
    let wrap = Event {
        id: EventId::from_hex(&event_id(1)).unwrap(),
        pubkey: PublicKey::from_hex(&client()).unwrap(),
        kind: EPHEMERAL_GIFT_WRAP_KIND,
        tags: Vec::new(),
        content: String::new(),
    };
    let mut server = server(GiftWrapMode::Optional);
    assert!(matches!(server.on_event(&wrap), Inbound::Decrypt));
    assert!(server
        .on_decrypted(&wrap, Err(Error::Decryption("no".to_string())))
        .is_none());
    let delivery = server
        .on_decrypted(&wrap, Ok(serde_json::to_string(&inner).unwrap()))
        .expect("an event that verifies");
    assert_eq!(delivery.sender.to_hex(), keys.public_key().to_hex());
    assert_eq!(delivery.wrap_kind, Some(EPHEMERAL_GIFT_WRAP_KIND));
    assert_eq!(forward(&mut server, &delivery).event_id, inner.id.to_hex());
    // Once opened, it is not opened again.
    assert!(matches!(
        server.on_event(&wrap),
        Inbound::Skip(SkipReason::AlreadySeen)
    ));

    let strict = NostrServerTransport::new(NostrServerTransportConfig {
        gift_wrap_mode: GiftWrapMode::Persistent,
        ..Default::default()
    });
    assert!(matches!(
        strict.on_event(&wrap),
        Inbound::Skip(SkipReason::WrapKindRefused)
    ));
}

#[test]
fn initialized_clients_get_broadcasts() {
    let mut server = server(GiftWrapMode::Optional);
    let changed = JsonRpcMessage::Notification(JsonRpcNotification {
        jsonrpc: "2.0".to_string(),
        method: "notifications/tools/list_changed".to_string(),
        params: None,
    });
    forward(&mut server, &delivery(1, None, LIST));
    assert!(server.broadcast_notification(&changed).is_empty());
    let done = r#"{"jsonrpc":"2.0","method":"notifications/initialized"}"#;
    forward(&mut server, &delivery(2, None, done));
    let sent = server.broadcast_notification(&changed);
    assert_eq!(sent.len(), 1);
    assert_eq!(sent[0].0, client());
    assert_eq!(sent[0].1.wrap_kind, None);
}

#[test]
fn announcements_found_are_deleted_at_once() {
    let server = server(GiftWrapMode::Optional);
    assert!(server.delete_announcements("gone", &[]).is_none());
    let found = [EventId::from_hex(&event_id(1)).unwrap(), EventId::from_hex(&event_id(2)).unwrap()];
    let template = server.delete_announcements("gone", &found).unwrap();
    assert_eq!(template.kind, 5);
    assert_eq!(template.content, "gone");
    assert_eq!(names(&template.tags), vec!["e", "e"]);
    assert_eq!(template.tags[1].to_vec()[1], event_id(2));
}

#[test]
fn closing_forgets_the_clients() {
    let mut server = server(GiftWrapMode::Optional);
    forward(&mut server, &delivery(1, None, LIST));
    let _ = server.start(StartEvent::Connected(Ok(())));
    assert!(server.close(Err(Error::Transport("busy".to_string()))).is_err());
    assert!(!server.sessions.is_empty());
    assert!(server.close(Ok(())).is_ok());
    assert!(server.sessions.is_empty());
    assert!(server.event_to_client.is_empty());
}
