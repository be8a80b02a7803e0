//! Transport-level flows: client and server joined by a network in memory.
//!
//! Every event is signed for real, and gift wraps are encrypted for real, so
//! that subscription kinds, routing, the encryption modes and authorization are
//! all exercised.

use contextvm_sdk::protocol::constants::{
    mcp_protocol_version, tags as ctxvm_tags, EPHEMERAL_GIFT_WRAP_KIND, GIFT_WRAP_KIND,
    SERVER_ANNOUNCEMENT_KIND,
};
use contextvm_sdk::protocol::error::Error;
use contextvm_sdk::protocol::json::Json;
use contextvm_sdk::protocol::nostr::{
    read_verified_event, Event, EventTemplate, PublicKey, Tag,
};
use contextvm_sdk::protocol::serializers::get_tag_value;
use contextvm_sdk::protocol::types::{
    EncryptionMode, GiftWrapMode, JsonRpcMessage, JsonRpcNotification, JsonRpcRequest,
    JsonRpcResponse, ServerInfo,
};
use contextvm_sdk::transport::base::{Outgoing, StartAction, StartEvent};
use contextvm_sdk::transport::client::{
    NostrClientTransport, NostrClientTransportConfig, Received, Sending,
};
use contextvm_sdk::transport::inbound::{Inbound, IncomingRequest};
use contextvm_sdk::transport::server::config::NostrServerTransportConfig;
use contextvm_sdk::transport::server::{Handled, NostrServerTransport};
use nostr_sdk::nips::nip44;
use nostr_sdk::{EventBuilder, Keys, Kind};

fn json(text: &str) -> Json {
    Json::from_text(text).expect("valid JSON")
}

fn request(id: &str, method: &str) -> JsonRpcMessage {
    JsonRpcMessage::Request(JsonRpcRequest {
        jsonrpc: "2.0".to_string(),
        id: json(id),
        method: method.to_string(),
        params: None,
    })
}

fn response(id: &str, result: &str) -> JsonRpcMessage {
    JsonRpcMessage::Response(JsonRpcResponse {
        jsonrpc: "2.0".to_string(),
        id: json(id),
        result: json(result),
    })
}

fn notification(method: &str, params: Option<&str>) -> JsonRpcMessage {
    JsonRpcMessage::Notification(JsonRpcNotification {
        jsonrpc: "2.0".to_string(),
        method: method.to_string(),
        params: params.map(json),
    })
}

// ── The network ──────────────────────────────────────────────────────────────

fn key(keys: &Keys) -> PublicKey {
    PublicKey::from_hex(&keys.public_key().to_hex()).unwrap()
}

/// A template as a signed event, written out.
fn sign(template: &EventTemplate, keys: &Keys) -> String {
    let tags = template
        .tags
        .iter()
        .map(|tag| nostr_sdk::Tag::parse(tag.to_vec()).unwrap());
    let event = EventBuilder::new(Kind::Custom(template.kind), template.content.clone())
        .tags(tags)
        .sign_with_keys(keys)
        .expect("sign event");
    serde_json::to_string(&event).unwrap()
}

/// A gift wrap around an event, signed by a key of its own.
fn wrap(inner: &str, recipient: &PublicKey, kind: u16) -> Event {
    let throwaway = Keys::generate();
    let receiver = nostr_sdk::PublicKey::from_hex(&recipient.to_hex()).unwrap();
    let content = nip44::encrypt(
        throwaway.secret_key(),
        &receiver,
        inner,
        nip44::Version::default(),
    )
    .expect("encrypt");
    let event = EventBuilder::new(Kind::Custom(kind), content)
        .tags([nostr_sdk::Tag::public_key(receiver)])
        .sign_with_keys(&throwaway)
        .expect("sign gift wrap");
    read_verified_event(&serde_json::to_string(&event).unwrap()).expect("gift wrap verifies")
}

fn unwrap(event: &Event, keys: &Keys) -> Result<String, Error> {
    let sender = nostr_sdk::PublicKey::from_hex(&event.pubkey.to_hex()).unwrap();
    nip44::decrypt(keys.secret_key(), &sender, &event.content)
        .map_err(|error| Error::Decryption(error.to_string()))
}

/// What is published for a message: the event itself, and what goes out.
fn publish(outgoing: &Outgoing, keys: &Keys) -> (Event, Event) {
    let text = sign(&outgoing.template, keys);
    let signed = read_verified_event(&text).expect("signed event verifies");
    let published = match outgoing.wrap_kind {
        Some(kind) => wrap(&text, &outgoing.recipient, kind),
        None => read_verified_event(&text).unwrap(),
    };
    (signed, published)
}

struct Pair {
    server_keys: Keys,
    client_keys: Keys,
    server: NostrServerTransport,
    client: NostrClientTransport,
    /// All that was published, in order.
    events: Vec<Event>,
}

/// What the server made of an event.
enum Served {
    Skipped,
    Unreadable,
    Handled(Handled),
}

impl Pair {
    fn new(
        server_config: NostrServerTransportConfig,
        encryption_mode: EncryptionMode,
        gift_wrap_mode: GiftWrapMode,
    ) -> Pair {
        let server_keys = Keys::generate();
        let client_keys = Keys::generate();
        let mut server = NostrServerTransport::new(server_config);
        let mut client = NostrClientTransport::new(NostrClientTransportConfig {
            server_pubkey: server_keys.public_key().to_hex(),
            encryption_mode,
            gift_wrap_mode,
            ..Default::default()
        })
        .expect("create client transport");
        assert!(server.take_message_receiver(), "server message receiver");
        assert!(client.take_message_receiver(), "client message receiver");
        assert!(!server.take_message_receiver());
        assert!(!client.take_message_receiver());
        for step in [StartEvent::Begin, StartEvent::Connected(Ok(()))] {
            assert!(!matches!(server.start(step), StartAction::Fail(_)));
        }
        for step in [StartEvent::Begin, StartEvent::Connected(Ok(()))] {
            assert!(!matches!(client.start(step), StartAction::Fail(_)));
        }
        Pair { server_keys, client_keys, server, client, events: Vec::new() }
    }

    fn server_receives(&mut self, event: &Event) -> Served {
        let delivery = match self.server.on_event(event) {
            Inbound::Skip(_) => return Served::Skipped,
            Inbound::Deliver(delivery) => delivery,
            Inbound::Decrypt => {
                let decrypted = unwrap(event, &self.server_keys);
                match self.server.on_decrypted(event, decrypted) {
                    Some(delivery) => delivery,
                    None => return Served::Unreadable,
                }
            }
        };
        let handled = self.server.on_delivery(&delivery);
        if let Handled::Refused(Some(refusal)) = &handled {
            let (_, published) = publish(&refusal.outgoing, &self.server_keys);
            self.events.push(published);
            self.server.refusal_sent(&delivery.sender, refusal);
        }
        Served::Handled(handled)
    }

    /// The client sends a message; what reaches the server's handler comes back.
    fn client_sends(&mut self, message: &JsonRpcMessage) -> Option<IncomingRequest> {
        let outgoing = match self.client.send(message) {
            Sending::Send(outgoing) => outgoing,
            other => panic!("expected a message to send, got {other:?}"),
        };
        let (signed, published) = publish(&outgoing, &self.client_keys);
        self.client.message_sent(message, &signed.id);
        let served = self.server_receives(&published);
        let at = self.events.len() - usize::from(matches!(
            served,
            Served::Handled(Handled::Refused(Some(_)))
        ));
        self.events.insert(at, published);
        match served {
            Served::Handled(Handled::Forward(incoming)) => Some(incoming),
            _ => None,
        }
    }

    fn client_receives(&mut self, event: &Event) -> Option<JsonRpcMessage> {
        let reply = match self.client.on_event(event) {
            Received::Violation | Received::AlreadySeen => return None,
            Received::Read(reply) => reply,
            Received::Decrypt => {
                let decrypted = unwrap(event, &self.client_keys);
                self.client.on_decrypted(event, decrypted)?
            }
        };
        self.client.on_reply(&reply)
    }

    fn server_publishes(&mut self, outgoing: &Outgoing) -> Option<JsonRpcMessage> {
        assert_eq!(outgoing.recipient.to_hex(), key(&self.client_keys).to_hex());
        let (_, published) = publish(outgoing, &self.server_keys);
        let received = self.client_receives(&published);
        self.events.push(published);
        received
    }

    /// The server answers; what the client's caller gets comes back.
    fn server_responds(&mut self, event_id: &str, response: JsonRpcMessage) -> Option<JsonRpcMessage> {
        let planned = self
            .server
            .send_response(event_id, response)
            .expect("server send response");
        let received = self.server_publishes(&planned.outgoing);
        self.server.response_sent(event_id, &planned);
        received
    }

    fn server_notifies(
        &mut self,
        client: &str,
        message: &JsonRpcMessage,
        correlated: Option<&str>,
    ) -> Option<JsonRpcMessage> {
        let outgoing = self
            .server
            .send_notification(client, message, correlated)
            .expect("send notification");
        self.server_publishes(&outgoing)
    }

    fn kinds_from(&self, before: usize) -> Vec<u16> {
        self.events[before..].iter().map(|event| event.kind).collect()
    }
}

fn with_mode(encryption_mode: EncryptionMode) -> NostrServerTransportConfig {
    NostrServerTransportConfig { encryption_mode, ..Default::default() }
}

// ── 1. Full initialization handshake ────────────────────────────────────────

#[test]
fn full_initialization_handshake() {
    let mut pair = Pair::new(
        with_mode(EncryptionMode::Disabled),
        EncryptionMode::Disabled,
        GiftWrapMode::Optional,
    );

    // Client sends initialize request.
    let init_request = JsonRpcMessage::Request(JsonRpcRequest {
        jsonrpc: "2.0".to_string(),
        id: json("1"),
        method: "initialize".to_string(),
        params: Some(json(&format!(
            r#"{{"protocolVersion":"{}","capabilities":{{}},
                "clientInfo":{{"name":"test-client","version":"0.0.0"}}}}"#,
            mcp_protocol_version()
        ))),
    });

    // Server should receive the initialize request.
    let incoming = pair
        .client_sends(&init_request)
        .expect("server must receive init request");
    assert_eq!(
        incoming.message.method(),
        Some("initialize"),
        "server must receive initialize request"
    );

    // Server sends initialize response; client should receive it.
    let init_response = response(
        "1",
        &format!(
            r#"{{"protocolVersion":"{}",
                "serverInfo":{{"name":"test-server","version":"0.0.0"}},"capabilities":{{}}}}"#,
            mcp_protocol_version()
        ),
    );
    let response = pair
        .server_responds(&incoming.event_id, init_response)
        .expect("client must receive init response");
    assert!(response.is_response(), "client must receive a response");
    assert_eq!(response.id(), Some(&json("1")));
}

// ── 2. Server announcement publishing ───────────────────────────────────────

#[test]
fn server_announcement_publishing() {
    let server = NostrServerTransport::new(NostrServerTransportConfig {
        is_announced_server: true,
        server_info: Some(ServerInfo {
            name: Some("Phase3-Test-Server".to_string()),
            ..Default::default()
        }),
        encryption_mode: EncryptionMode::Disabled,
        ..Default::default()
    });
    let template = server.announce().expect("server announce");
    let keys = Keys::generate();
    let ann = read_verified_event(&sign(&template, &keys)).unwrap();

    assert_eq!(
        ann.kind, SERVER_ANNOUNCEMENT_KIND,
        "kind {} event must be published after announce()",
        SERVER_ANNOUNCEMENT_KIND
    );
    let content: serde_json::Value =
        serde_json::from_str(&ann.content).expect("announcement content must be JSON");
    assert_eq!(
        content["name"], "Phase3-Test-Server",
        "announcement content must include server name"
    );
}

// ── 3. Encryption mode Optional accepts plaintext ───────────────────────────

#[test]
fn encryption_mode_optional_accepts_plaintext() {
    // Server uses Optional — should accept both encrypted and plaintext.
    // Client uses Disabled — sends plaintext kind 25910.
    let mut pair = Pair::new(
        with_mode(EncryptionMode::Optional),
        EncryptionMode::Disabled,
        GiftWrapMode::Optional,
    );

    // Server must receive and process the plaintext message.
    let incoming = pair
        .client_sends(&request("\"plain-1\"", "tools/list"))
        .expect("server must receive plaintext request");
    assert_eq!(
        incoming.message.method(),
        Some("tools/list"),
        "Optional-mode server must accept plaintext kind 25910"
    );
    assert!(
        !incoming.is_encrypted,
        "plaintext request must not be marked as encrypted"
    );
    assert_eq!(pair.kinds_from(0), vec![25910]);
}

// ── 4. Auth allowlist blocks disallowed pubkey ──────────────────────────────

#[test]
fn auth_allowlist_blocks_disallowed_pubkey() {
    let allowed_keys = Keys::generate(); // a DIFFERENT pubkey

    // Server allows only `allowed_keys` — client_keys is NOT allowed.
    let mut pair = Pair::new(
        NostrServerTransportConfig {
            allowed_public_keys: vec![allowed_keys.public_key().to_hex()],
            encryption_mode: EncryptionMode::Disabled,
            ..Default::default()
        },
        EncryptionMode::Disabled,
        GiftWrapMode::Optional,
    );

    // Send a non-initialize request (those are always allowed).
    assert!(
        pair.client_sends(&request("42", "tools/list")).is_none(),
        "disallowed pubkey request must not reach the server handler"
    );
    // No session comes of it.
    assert_eq!(pair.server.sessions.session_count(), 0);
    // The client is told.
    let refusal = pair.events.pop().unwrap();
    let answer = pair.client_receives(&refusal).expect("client must get the refusal");
    assert!(answer.is_error());
    assert_eq!(answer.id(), Some(&json("42")));

    // Initialization stays open to all.
    assert!(pair.client_sends(&request("43", "initialize")).is_some());
    assert!(pair
        .client_sends(&notification("notifications/initialized", None))
        .is_some());
    // A notification that is not allowed gets no answer.
    let before = pair.events.len();
    assert!(pair.client_sends(&notification("notifications/other", None)).is_none());
    assert_eq!(pair.events.len(), before + 1);
}

// ── 5. Encryption mode Required drops plaintext ─────────────────────────────

#[test]
fn encryption_mode_required_drops_plaintext() {
    // Server requires encryption — plaintext must be dropped.
    // Client sends plaintext (Disabled mode).
    let mut pair = Pair::new(
        with_mode(EncryptionMode::Required),
        EncryptionMode::Disabled,
        GiftWrapMode::Optional,
    );
    assert!(
        pair.client_sends(&request("\"drop-me\"", "tools/list")).is_none(),
        "Required-mode server must drop plaintext kind 25910 events"
    );
    assert_eq!(pair.events.len(), 1);
}

// ── 6. Encrypted gift-wrap roundtrip ────────────────────────────────────────

#[test]
fn encrypted_gift_wrap_roundtrip() {
    let mut pair = Pair::new(
        with_mode(EncryptionMode::Required),
        EncryptionMode::Required,
        GiftWrapMode::Optional,
    );

    // Client sends encrypted request; server should decrypt and receive it.
    let incoming = pair
        .client_sends(&request("\"enc-1\"", "tools/list"))
        .expect("server must decrypt gift-wrap request");

    // Verify the published event is a gift-wrap (kind 1059).
    assert!(
        pair.events.iter().any(|e| e.kind == GIFT_WRAP_KIND),
        "client must publish a kind 1059 gift-wrap event"
    );
    assert_eq!(incoming.message.method(), Some("tools/list"));
    assert!(incoming.is_encrypted, "message must be marked encrypted");

    // Server sends an encrypted response back; client should decrypt and receive it.
    let client_msg = pair
        .server_responds(&incoming.event_id, response("\"enc-1\"", r#"{"tools": []}"#))
        .expect("client must decrypt gift-wrap response");
    assert!(client_msg.is_response());
    assert_eq!(client_msg.id(), Some(&json("\"enc-1\"")));
}

// ── 7. Gift-wrap dedup skips duplicate delivery ─────────────────────────────

#[test]
fn gift_wrap_dedup_skips_duplicate_delivery() {
    let mut pair = Pair::new(
        with_mode(EncryptionMode::Required),
        EncryptionMode::Required,
        GiftWrapMode::Optional,
    );

    // Server receives the first delivery.
    let incoming = pair
        .client_sends(&request("\"dedup-1\"", "tools/list"))
        .expect("first delivery");
    assert_eq!(incoming.message.method(), Some("tools/list"));
    assert!(incoming.is_encrypted);

    // Re-deliver the same gift-wrap event (simulates relay redelivery).
    let at = pair
        .events
        .iter()
        .position(|e| e.kind == GIFT_WRAP_KIND)
        .expect("gift-wrap event must exist");
    let gift_wrap = pair.events.remove(at);
    assert!(
        matches!(pair.server_receives(&gift_wrap), Served::Skipped),
        "duplicate gift-wrap (same outer event id) must be skipped"
    );
}

#[test]
fn client_skips_gift_wrap_that_comes_again() {
    let mut pair = Pair::new(
        with_mode(EncryptionMode::Required),
        EncryptionMode::Required,
        GiftWrapMode::Optional,
    );
    let incoming = pair.client_sends(&request("1", "tools/list")).unwrap();
    let notice = notification("notifications/tools/list_changed", None);
    assert!(pair.server_notifies(&incoming.client_pubkey, &notice, None).is_some());
    let gift_wrap = pair.events.pop().unwrap();
    assert!(matches!(pair.client.on_event(&gift_wrap), Received::AlreadySeen));
}

#[test]
fn gift_wrap_that_failed_is_tried_again() {
    let mut pair = Pair::new(
        with_mode(EncryptionMode::Required),
        EncryptionMode::Required,
        GiftWrapMode::Optional,
    );
    let outgoing = match pair.client.send(&request("1", "tools/list")) {
        Sending::Send(outgoing) => outgoing,
        other => panic!("expected a message to send, got {other:?}"),
    };
    let (_, published) = publish(&outgoing, &pair.client_keys);
    let failed = Err(Error::Decryption("signer is away".to_string()));
    assert!(pair.server.on_decrypted(&published, failed).is_none());
    assert!(pair.server.on_decrypted(&published, Ok("{}".to_string())).is_none());
    assert!(pair.client.on_decrypted(&published, Ok("no event".to_string())).is_none());
    assert!(matches!(
        pair.server_receives(&published),
        Served::Handled(Handled::Forward(_))
    ));
}

// ── 8. Correlated notification has e tag ─────────────────────────────────────

#[test]
fn correlated_notification_has_e_tag() {
    let mut pair = Pair::new(
        with_mode(EncryptionMode::Disabled),
        EncryptionMode::Disabled,
        GiftWrapMode::Optional,
    );

    // Server receives the request and captures the event_id.
    let incoming = pair
        .client_sends(&request("\"notif-corr\"", "tools/list"))
        .expect("server must receive request");
    assert_eq!(incoming.message.method(), Some("tools/list"));
    let request_event_id = incoming.event_id.clone();

    // Server sends a correlated notifications/progress notification; client should receive it.
    let progress = notification(
        "notifications/progress",
        Some(r#"{"progressToken": "tok-1", "progress": 50, "total": 100}"#),
    );
    let client_msg = pair
        .server_notifies(&incoming.client_pubkey, &progress, Some(&request_event_id))
        .expect("client must receive notification");
    assert!(client_msg.is_notification());
    assert_eq!(client_msg.method(), Some("notifications/progress"));

    // The published notification event must carry an e tag referencing the request.
    let server_pubkey = pair.server_keys.public_key().to_hex();
    let notif_event = pair
        .events
        .iter()
        .find(|e| {
            e.pubkey.to_hex() == server_pubkey && e.content.contains("notifications/progress")
        })
        .expect("notification event must be in stored events");
    assert_eq!(
        get_tag_value(&notif_event.tags, "e"),
        Some(request_event_id),
        "notification event must have e tag referencing the original request event id"
    );
}

// ── CEP-19: Response matrix ──────────────────────────────────────────────────
//
// For each server GiftWrapMode (Persistent, Ephemeral, Optional) and each
// client-sent wrap kind (1059, 21059), verify the outbound response kind.

fn make_cep19_pair(
    server_gift_wrap_mode: GiftWrapMode,
    client_gift_wrap_mode: GiftWrapMode,
) -> Pair {
    Pair::new(
        NostrServerTransportConfig {
            encryption_mode: EncryptionMode::Required,
            gift_wrap_mode: server_gift_wrap_mode,
            ..Default::default()
        },
        EncryptionMode::Required,
        client_gift_wrap_mode,
    )
}

/// Run a single request→response roundtrip and see that the client gets the response.
fn cep19_roundtrip(pair: &mut Pair) -> String {
    let incoming = pair
        .client_sends(&request("\"rt-cep19\"", "tools/list"))
        .expect("server request");
    let event_id = incoming.event_id.clone();
    pair.server_responds(&event_id, response("\"rt-cep19\"", r#"{"tools": []}"#))
        .expect("client response");
    event_id
}

#[test]
fn cep19_persistent_mode_always_responds_with_persistent_kind() {
    let mut pair = make_cep19_pair(GiftWrapMode::Persistent, GiftWrapMode::Persistent);
    cep19_roundtrip(&mut pair);
    let kinds = pair.kinds_from(0);
    assert!(
        kinds.contains(&GIFT_WRAP_KIND),
        "Persistent-mode server must respond with kind {GIFT_WRAP_KIND}"
    );
    assert!(
        !kinds.contains(&EPHEMERAL_GIFT_WRAP_KIND),
        "Persistent-mode server must NOT send kind {EPHEMERAL_GIFT_WRAP_KIND} in response"
    );
}

#[test]
fn cep19_ephemeral_mode_always_responds_with_ephemeral_kind() {
    let mut pair = make_cep19_pair(GiftWrapMode::Ephemeral, GiftWrapMode::Ephemeral);
    cep19_roundtrip(&mut pair);
    let kinds = pair.kinds_from(0);
    assert!(
        kinds.contains(&EPHEMERAL_GIFT_WRAP_KIND),
        "Ephemeral-mode server must respond with kind {EPHEMERAL_GIFT_WRAP_KIND}"
    );
    assert!(
        !kinds.contains(&GIFT_WRAP_KIND),
        "Ephemeral-mode server must NOT send kind {GIFT_WRAP_KIND} in response"
    );
}

#[test]
fn cep19_optional_mode_mirrors_persistent_request() {
    let mut pair = make_cep19_pair(GiftWrapMode::Optional, GiftWrapMode::Persistent);
    cep19_roundtrip(&mut pair);
    let kinds = pair.kinds_from(0);
    assert!(
        kinds.contains(&GIFT_WRAP_KIND),
        "Optional server must mirror kind {GIFT_WRAP_KIND} when client sent kind {GIFT_WRAP_KIND}"
    );
    assert!(
        !kinds.contains(&EPHEMERAL_GIFT_WRAP_KIND),
        "Optional server must NOT send ephemeral when client used persistent"
    );
}

#[test]
fn cep19_optional_mode_mirrors_ephemeral_request() {
    let mut pair = make_cep19_pair(GiftWrapMode::Optional, GiftWrapMode::Ephemeral);
    cep19_roundtrip(&mut pair);
    let kinds = pair.kinds_from(0);
    assert!(
        kinds.contains(&EPHEMERAL_GIFT_WRAP_KIND),
        "Optional server must mirror kind {EPHEMERAL_GIFT_WRAP_KIND} when client sent it"
    );
    assert!(
        !kinds.contains(&GIFT_WRAP_KIND),
        "Optional server must NOT send persistent when client used ephemeral"
    );
}

#[test]
fn cep19_persistent_server_drops_ephemeral_inbound() {
    // only kind 1059; the client sends kind 21059
    let mut pair = make_cep19_pair(GiftWrapMode::Persistent, GiftWrapMode::Ephemeral);
    assert!(
        pair.client_sends(&request("\"should-drop\"", "tools/list")).is_none(),
        "Persistent server must drop incoming kind {EPHEMERAL_GIFT_WRAP_KIND}"
    );
    assert_eq!(pair.kinds_from(0), vec![EPHEMERAL_GIFT_WRAP_KIND]);
}

#[test]
fn cep19_ephemeral_server_drops_persistent_inbound() {
    // only kind 21059; the client sends kind 1059
    let mut pair = make_cep19_pair(GiftWrapMode::Ephemeral, GiftWrapMode::Persistent);
    assert!(
        pair.client_sends(&request("\"should-drop-persistent\"", "tools/list")).is_none(),
        "Ephemeral server must drop incoming kind {GIFT_WRAP_KIND}"
    );
    assert_eq!(pair.kinds_from(0), vec![GIFT_WRAP_KIND]);
}

fn announcing(name: &str, gift_wrap_mode: GiftWrapMode) -> EventTemplate {
    NostrServerTransport::new(NostrServerTransportConfig {
        is_announced_server: true,
        server_info: Some(ServerInfo { name: Some(name.to_string()), ..Default::default() }),
        encryption_mode: EncryptionMode::Optional,
        gift_wrap_mode,
        ..Default::default()
    })
    .announce()
    .expect("announce")
}

fn has_tag(template: &EventTemplate, name: &str) -> bool {
    template.tags.iter().any(|tag| tag.to_vec()[0] == name)
}

#[test]
fn cep19_announce_includes_ephemeral_tag_when_mode_supports_it() {
    let ann = announcing("optional-announce-server", GiftWrapMode::Optional);
    assert_eq!(ann.kind, SERVER_ANNOUNCEMENT_KIND);
    assert!(
        has_tag(&ann, ctxvm_tags::SUPPORT_ENCRYPTION_EPHEMERAL),
        "Optional-mode announcement must include support_encryption_ephemeral tag"
    );
}

#[test]
fn cep19_announce_omits_ephemeral_tag_for_persistent_mode() {
    let ann = announcing("persistent-announce-server", GiftWrapMode::Persistent);
    assert_eq!(ann.kind, SERVER_ANNOUNCEMENT_KIND);
    assert!(
        !has_tag(&ann, ctxvm_tags::SUPPORT_ENCRYPTION_EPHEMERAL),
        "Persistent-mode announcement must NOT include support_encryption_ephemeral tag"
    );
}

#[test]
fn cep19_notification_mirrors_correlated_ephemeral_request_wrap_kind() {
    // Client uses Ephemeral; server is Optional → mirrors it.
    // A correlated notification must also use kind 21059.
    let mut pair = make_cep19_pair(GiftWrapMode::Optional, GiftWrapMode::Ephemeral);
    let incoming = pair
        .client_sends(&request("\"notif-mirror-cep19\"", "tools/list"))
        .expect("server request");
    let before = pair.events.len();
    let progress = notification(
        "notifications/progress",
        Some(r#"{"progressToken": "tok", "progress": 50}"#),
    );
    let notif_msg = pair
        .server_notifies(&incoming.client_pubkey, &progress, Some(&incoming.event_id))
        .expect("client notification");
    assert!(notif_msg.is_notification());

    // Verify the notification was published as kind 21059.
    assert!(
        pair.kinds_from(before).contains(&EPHEMERAL_GIFT_WRAP_KIND),
        "Notification correlated to ephemeral request must be sent as kind {EPHEMERAL_GIFT_WRAP_KIND}"
    );
}

#[test]
fn cep19_optional_uncorrelated_notification_uses_learned_ephemeral_support() {
    let mut pair = make_cep19_pair(GiftWrapMode::Optional, GiftWrapMode::Ephemeral);
    let incoming = pair
        .client_sends(&request("\"learn-ephemeral\"", "tools/list"))
        .expect("server request");
    let before = pair.events.len();
    let notice = notification("notifications/tools/list_changed", None);
    let msg = pair
        .server_notifies(&incoming.client_pubkey, &notice, None)
        .expect("client notification");
    assert_eq!(msg.method(), Some("notifications/tools/list_changed"));
    assert!(
        pair.kinds_from(before).contains(&EPHEMERAL_GIFT_WRAP_KIND),
        "Optional server should use kind {EPHEMERAL_GIFT_WRAP_KIND} for uncorrelated notifications after learning client support"
    );
}

#[test]
fn cep19_unauthorized_response_includes_common_support_tags() {
    let allowed_keys = Keys::generate();
    let mut pair = Pair::new(
        NostrServerTransportConfig {
            allowed_public_keys: vec![allowed_keys.public_key().to_hex()],
            encryption_mode: EncryptionMode::Optional,
            gift_wrap_mode: GiftWrapMode::Optional,
            ..Default::default()
        },
        EncryptionMode::Disabled,
        GiftWrapMode::Optional,
    );
    pair.client_sends(&request("\"unauthorized-cep19-tags\"", "tools/list"));

    let server_pubkey = pair.server_keys.public_key().to_hex();
    let response = pair
        .events
        .iter()
        .find(|e| e.pubkey.to_hex() == server_pubkey && e.content.contains("Unauthorized"))
        .expect("unauthorized response event");
    assert!(
        response
            .tags
            .iter()
            .any(|tag| tag.to_vec()[0] == ctxvm_tags::SUPPORT_ENCRYPTION_EPHEMERAL),
        "Unauthorized first response should include support_encryption_ephemeral"
    );
}

// ── Sessions over several messages ───────────────────────────────────────────

#[test]
fn answered_request_is_settled() {
    let mut pair = make_cep19_pair(GiftWrapMode::Optional, GiftWrapMode::Optional);
    let first = pair.client_sends(&request("7", "tools/list")).unwrap();
    // The answer carries the id of the request, whatever the handler wrote.
    let answer = pair
        .server_responds(&first.event_id, response("\"other\"", "{}"))
        .unwrap();
    assert_eq!(answer.id(), Some(&json("7")));
    // It is no longer pending, on either side.
    let error = pair
        .server
        .send_response(&first.event_id, response("7", "{}"))
        .unwrap_err();
    assert_eq!(
        error.reason(),
        format!("No client found for event {}", first.event_id)
    );
    assert!(!pair.client.pending_requests.contains(&first.event_id));
    // The common tags went with the first answer only.
    let second = pair.client_sends(&request("8", "tools/list")).unwrap();
    let planned = pair
        .server
        .send_response(&second.event_id, response("8", "{}"))
        .unwrap();
    assert!(!planned.sends_common_tags);
    assert_eq!(planned.outgoing.template.tags.len(), 2);
}

#[test]
fn pricing_tags_go_with_capability_lists() {
    let mut pair = make_cep19_pair(GiftWrapMode::Optional, GiftWrapMode::Optional);
    let pricing = ["cap".to_string(), "tool:demo".to_string(), "10".to_string()].to_vec();
    pair.server
        .set_announcement_pricing_tags(vec![Tag::from_items(pricing.clone())]);
    let names = |outgoing: &Outgoing| -> Vec<String> {
        outgoing.template.tags.iter().map(|tag| tag.to_vec()[0].clone()).collect()
    };

    // The first answer carries the common tags, then the pricing tags.
    let first = pair.client_sends(&request("1", "tools/list")).unwrap();
    let planned = pair
        .server
        .send_response(&first.event_id, response("1", r#"{"tools": []}"#))
        .unwrap();
    assert_eq!(
        names(&planned.outgoing),
        vec!["p", "e", "support_encryption", "support_encryption_ephemeral", "cap"]
    );
    assert_eq!(planned.outgoing.template.tags[4].to_vec(), pricing);
    pair.server.response_sent(&first.event_id, &planned);

    // Later answers carry the pricing tags where they list capabilities.
    let second = pair.client_sends(&request("2", "tools/list")).unwrap();
    for list in ["tools", "resources", "resourceTemplates", "prompts"] {
        let planned = pair
            .server
            .send_response(&second.event_id, response("2", &format!("{{\"{list}\": []}}")))
            .unwrap();
        assert_eq!(names(&planned.outgoing), vec!["p", "e", "cap"]);
        assert_eq!(planned.outgoing.template.tags[2].to_vec(), pricing);
    }
    let planned = pair
        .server
        .send_response(&second.event_id, response("2", r#"{"content": []}"#))
        .unwrap();
    assert_eq!(names(&planned.outgoing), vec!["p", "e"]);
}

#[test]
fn messages_keep_a_session_and_answers_do_not() {
    let mut pair = make_cep19_pair(GiftWrapMode::Optional, GiftWrapMode::Optional);
    let incoming = pair.client_sends(&request("1", "tools/list")).unwrap();
    let last = |pair: &Pair| {
        pair.server.sessions.sessions.get(&incoming.client_pubkey).unwrap().last_activity
    };
    let first = last(&pair);
    let wait = std::time::Instant::now();
    while wait.elapsed().as_millis() < 5 {}
    pair.server_responds(&incoming.event_id, response("1", "{}")).unwrap();
    assert_eq!(last(&pair), first);
    pair.client_sends(&request("2", "tools/list")).unwrap();
    assert!(last(&pair) > first);
    assert!(last(&pair) >= wait);
}

#[test]
fn progress_token_is_kept_until_the_answer() {
    let mut pair = make_cep19_pair(GiftWrapMode::Optional, GiftWrapMode::Optional);
    let with_token = JsonRpcMessage::Request(JsonRpcRequest {
        jsonrpc: "2.0".to_string(),
        id: json("1"),
        method: "tools/call".to_string(),
        params: Some(json(r#"{"_meta":{"progressToken":"tok"}}"#)),
    });
    let incoming = pair.client_sends(&with_token).unwrap();
    let session = pair.server.sessions.sessions.get(&incoming.client_pubkey).unwrap();
    assert_eq!(
        session.event_to_progress_token.get(&incoming.event_id),
        Some(&"tok".to_string())
    );
    assert_eq!(session.pending_requests.len(), 2);
    pair.server_responds(&incoming.event_id, response("1", "{}")).unwrap();
    let session = pair.server.sessions.sessions.get(&incoming.client_pubkey).unwrap();
    assert!(session.event_to_progress_token.is_empty());
    assert!(session.pending_requests.is_empty());
    assert!(pair.server.request_wrap_kinds.is_empty());
}

#[test]
fn broadcast_reaches_initialized_clients() {
    let mut pair = make_cep19_pair(GiftWrapMode::Optional, GiftWrapMode::Optional);
    let notice = notification("notifications/tools/list_changed", None);
    let incoming = pair.client_sends(&request("1", "initialize")).unwrap();
    assert!(pair.server.broadcast_notification(&notice).is_empty());
    pair.client_sends(&notification("notifications/initialized", None)).unwrap();
    // One whose key is no key is passed over.
    pair.server.sessions.get_or_create_session("nobody", false);
    pair.server.sessions.mark_initialized("nobody");
    let sent = pair.server.broadcast_notification(&notice);
    assert_eq!(sent.len(), 1);
    assert_eq!(sent[0].0, incoming.client_pubkey);
    assert_eq!(sent[0].1.wrap_kind, Some(GIFT_WRAP_KIND));
}

#[test]
fn messages_without_a_way_back_fail() {
    let mut pair = make_cep19_pair(GiftWrapMode::Optional, GiftWrapMode::Optional);
    let reason = |result: Result<Outgoing, Error>| result.unwrap_err().reason().to_string();
    let notice = notification("notifications/tools/list_changed", None);
    assert_eq!(
        reason(pair.server.send_notification("nobody", &notice, None)),
        "No session for nobody"
    );
    pair.server.sessions.get_or_create_session("nobody", false);
    let no_key = nostr_sdk::PublicKey::from_hex("nobody").unwrap_err().to_string();
    assert_eq!(reason(pair.server.send_notification("nobody", &notice, None)), no_key);
    let client = key(&pair.client_keys).to_hex();
    pair.server.sessions.get_or_create_session(&client, false);
    let no_id = nostr_sdk::EventId::from_hex("evt").unwrap_err().to_string();
    assert_eq!(
        reason(pair.server.send_notification(&client, &notice, Some("evt"))),
        no_id
    );
    pair.server.event_routes.register("evt".to_string(), "gone".to_string());
    let error = pair.server.send_response("evt", response("1", "{}")).unwrap_err();
    assert_eq!(error.reason(), "No session for client gone");
    pair.server.event_routes.register("evt".to_string(), client);
    let error = pair.server.send_response("evt", response("1", "{}")).unwrap_err();
    assert_eq!(error.reason(), no_id);
}

#[test]
fn closing_forgets_sessions_and_routes() {
    let mut pair = make_cep19_pair(GiftWrapMode::Optional, GiftWrapMode::Optional);
    let incoming = pair.client_sends(&request("1", "tools/list")).unwrap();
    assert!(pair.server.close(Err(Error::Transport("busy".to_string()))).is_err());
    assert_eq!(pair.server.sessions.session_count(), 1);
    assert!(pair.server.close(Ok(())).is_ok());
    assert_eq!(pair.server.sessions.session_count(), 0);
    assert!(pair.server.event_routes.get(&incoming.event_id).is_none());
    assert!(pair.client.close(Ok(())).is_ok());
    assert!(!pair.client.base.is_connected);
}

#[test]
fn texts_that_are_no_messages_are_dropped() {
    let mut pair = Pair::new(
        with_mode(EncryptionMode::Disabled),
        EncryptionMode::Disabled,
        GiftWrapMode::Optional,
    );
    for content in ["", "{}", r#"{"jsonrpc":"1.0","method":"m"}"#] {
        let template = EventTemplate {
            kind: 25910,
            content: content.to_string(),
            tags: Vec::new(),
        };
        let event = read_verified_event(&sign(&template, &pair.client_keys)).unwrap();
        assert!(matches!(
            pair.server_receives(&event),
            Served::Handled(Handled::Invalid)
        ));
    }
    assert_eq!(pair.server.sessions.session_count(), 0);
}
