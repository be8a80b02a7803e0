//! What the library promises over several steps, on concrete values.

use contextvm_sdk::protocol::json::Json;
use contextvm_sdk::protocol::nostr::{EventId, PublicKey};
use contextvm_sdk::protocol::serializers::{mcp_to_nostr_event, nostr_event_to_mcp_message};
use contextvm_sdk::protocol::types::{
    JsonRpcError, JsonRpcErrorResponse, JsonRpcMessage, JsonRpcNotification, JsonRpcRequest,
    JsonRpcResponse,
};
use contextvm_sdk::protocol::validation::{validate_and_parse, validate_message};
use contextvm_sdk::protocol::wire::{message_to_value, read_message, write_message};
use contextvm_sdk::transport::inbound::Delivery;
use contextvm_sdk::transport::server::config::NostrServerTransportConfig;
use contextvm_sdk::transport::server::{Handled, NostrServerTransport};
use contextvm_sdk::transport::session_server;
use contextvm_sdk::util::string_map::StringMap;
use contextvm_sdk::util::time::Duration;

fn json(text: &str) -> Json {
    Json::from_text(text).expect("valid JSON")
}

fn messages() -> Vec<JsonRpcMessage> {
    let jsonrpc = || "2.0".to_string();
    vec![
        JsonRpcMessage::Request(JsonRpcRequest {
            jsonrpc: jsonrpc(),
            id: json("[1,-2,{\"a\":null}]"),
            method: "tools/call \"\u{1F600}\n\"".to_string(),
            params: Some(json(r#"{"z":1,"a":[true,false]}"#)),
        }),
        JsonRpcMessage::Response(JsonRpcResponse {
            jsonrpc: jsonrpc(),
            id: json("18446744073709551615"),
            result: json("null"),
        }),
        JsonRpcMessage::ErrorResponse(JsonRpcErrorResponse {
            jsonrpc: jsonrpc(),
            id: json("-9223372036854775808"),
            error: JsonRpcError {
                code: -32601,
                message: String::new(),
                data: Some(json("{}")),
            },
        }),
        JsonRpcMessage::Notification(JsonRpcNotification {
            jsonrpc: jsonrpc(),
            method: "notifications/initialized".to_string(),
            params: None,
        }),
    ]
}

#[test]
fn written_messages_are_read_back() {
    for message in messages() {
        let text = write_message(&message);
        for back in [
            nostr_event_to_mcp_message(&text).unwrap(),
            validate_and_parse(&text).unwrap(),
            read_message(&message_to_value(&message)).unwrap(),
            validate_message(&message_to_value(&message)).unwrap(),
        ] {
            assert_eq!(write_message(&back), text);
            assert_eq!(back.method(), message.method());
            assert_eq!(back.id(), message.id());
        }
        let template = mcp_to_nostr_event(&message, 25910, Vec::new());
        assert_eq!(template.content, text);
    }
}

#[test]
fn messages_are_written_in_the_order_of_their_fields() {
    let texts: Vec<String> = messages().iter().map(write_message).collect();
    assert_eq!(
        texts,
        vec![
            "{\"jsonrpc\":\"2.0\",\"id\":[1,-2,{\"a\":null}],\
             \"method\":\"tools/call \\\"\u{1F600}\\n\\\"\",\
             \"params\":{\"a\":[true,false],\"z\":1}}",
            r#"{"jsonrpc":"2.0","id":18446744073709551615,"result":null}"#,
            r#"{"jsonrpc":"2.0","id":-9223372036854775808,"error":{"code":-32601,"message":"","data":{}}}"#,
            r#"{"jsonrpc":"2.0","method":"notifications/initialized"}"#,
        ]
    );
}

#[test]
fn parameters_that_are_null_are_left_out() {
    let message = nostr_event_to_mcp_message(
        r#"{"jsonrpc":"2.0","id":1,"method":"ping","params":null}"#,
    )
    .unwrap();
    assert_eq!(
        write_message(&message),
        r#"{"jsonrpc":"2.0","id":1,"method":"ping"}"#
    );
}

#[test]
fn records_may_be_arrays() {
    let message = nostr_event_to_mcp_message(r#"["2.0",7,"ping"]"#).unwrap();
    assert!(message.is_request());
    assert_eq!(message.id(), Some(&json("7")));
    assert!(nostr_event_to_mcp_message(r#"["2.0","ping"]"#).unwrap().is_notification());
    assert!(nostr_event_to_mcp_message(r#"["2.0",7,"ping",{},0]"#).is_none());
    // The version has to be a member by name.
    assert!(validate_and_parse(r#"["2.0",7,"ping"]"#).is_none());
}

#[test]
fn nesting_is_read_as_deep_as_it_is_written() {
    let nested = |depth: usize| {
        format!(
            "{{\"jsonrpc\":\"2.0\",\"id\":1,\"method\":\"m\",\"params\":{}{}}}",
            "[".repeat(depth),
            "]".repeat(depth)
        )
    };
    assert!(validate_and_parse(&nested(126)).is_some());
    assert!(validate_and_parse(&nested(127)).is_none());
}

#[test]
fn keys_and_ids_are_read_back() {
    let upper = "AB".repeat(32);
    let lower = "ab".repeat(32);
    let key = PublicKey::from_hex(&upper).unwrap();
    assert_eq!(key.to_hex(), lower);
    assert!(PublicKey::from_hex(&key.to_hex()).unwrap().same(&key));
    let id = EventId::from_hex(&upper).unwrap();
    assert_eq!(id.to_hex(), lower);
    assert_eq!(EventId::from_hex(&id.to_hex()).unwrap().to_hex(), lower);
    for text in ["", "ab", &"ab".repeat(33), &"xy".repeat(32)] {
        assert_eq!(
            PublicKey::from_hex(text).unwrap_err().reason(),
            nostr_sdk::PublicKey::from_hex(text).unwrap_err().to_string()
        );
        assert_eq!(
            EventId::from_hex(text).unwrap_err().reason(),
            nostr_sdk::EventId::from_hex(text).unwrap_err().to_string()
        );
    }
}

fn delivery(client: &str, event: u8, content: &str) -> Delivery {
    Delivery {
        content: content.to_string(),
        sender: PublicKey::from_hex(&client.repeat(32)).unwrap(),
        event_id: EventId::from_hex(&format!("{event:02x}").repeat(32)).unwrap(),
        is_encrypted: false,
        wrap_kind: None,
    }
}

/// Every route leads to a session that awaits the answer.
fn routes_tracked(server: &NostrServerTransport, events: &[u8]) -> usize {
    let mut routes = 0;
    for event in events {
        let event_id = format!("{event:02x}").repeat(32);
        if let Some(client) = server.event_routes.get(&event_id) {
            let session = server.sessions.sessions.get(&client).expect("a session");
            assert!(session.pending_requests.contains_key(&event_id));
            routes += 1;
        }
    }
    routes
}

#[test]
fn routes_lead_to_sessions_that_await_the_answer() {
    let mut server = NostrServerTransport::new(NostrServerTransportConfig::default());
    let call = r#"{"jsonrpc":"2.0","id":1,"method":"m","params":{"_meta":{"progressToken":"t"}}}"#;
    let events = [1, 2, 3];
    for (client, event) in [("aa", 1), ("aa", 2), ("bb", 3)] {
        assert!(matches!(
            server.on_delivery(&delivery(client, event, call)),
            Handled::Forward(_)
        ));
    }
    assert_eq!(routes_tracked(&server, &events), 3);

    let first = "01".repeat(32);
    let planned = server
        .send_response(
            &first,
            JsonRpcMessage::Response(JsonRpcResponse {
                jsonrpc: "2.0".to_string(),
                id: json("1"),
                result: json("{}"),
            }),
        )
        .unwrap();
    server.response_sent(&first, &planned);
    assert_eq!(routes_tracked(&server, &events), 2);

    let mut idle: StringMap<Duration> = StringMap::new();
    idle.insert("aa".repeat(32), Duration::from_secs(301));
    idle.insert("bb".repeat(32), Duration::from_secs(300));
    assert_eq!(server.expire_sessions(&idle, Duration::from_secs(300)), 1);
    assert_eq!(routes_tracked(&server, &events), 1);
    assert!(server.event_routes.get(&"03".repeat(32)).is_some());
    assert_eq!(server.sessions.session_count(), 1);
}

fn answer() -> JsonRpcMessage {
    JsonRpcMessage::Response(JsonRpcResponse {
        jsonrpc: "2.0".to_string(),
        id: json("0"),
        result: json("{}"),
    })
}

const INITIALIZED: &str = r#"{"jsonrpc":"2.0","method":"notifications/initialized"}"#;

#[test]
fn an_answer_that_comes_late_finds_its_request() {
    let mut server = NostrServerTransport::new(NostrServerTransportConfig::default());
    let call = |id: u8| {
        format!(
            "{{\"jsonrpc\":\"2.0\",\"id\":{id},\"method\":\"m\",\"params\":{{\"_meta\":{{\"progressToken\":\"t{id}\"}}}}}}"
        )
    };
    server.on_delivery(&delivery("aa", 1, &call(7)));
    // Others come and are answered, and a session ends.
    server.on_delivery(&delivery("bb", 2, &call(7)));
    server.on_delivery(&delivery("aa", 3, &call(8)));
    server.on_delivery(&delivery("aa", 4, INITIALIZED));
    let third = "03".repeat(32);
    let planned = server.send_response(&third, answer()).unwrap();
    assert!(planned.sends_common_tags);
    server.response_sent(&third, &planned);
    let mut idle: StringMap<Duration> = StringMap::new();
    idle.insert("bb".repeat(32), Duration::from_secs(301));
    assert_eq!(server.expire_sessions(&idle, Duration::from_secs(300)), 1);

    let first = "01".repeat(32);
    let planned = server.send_response(&first, answer()).unwrap();
    assert_eq!(planned.client_pubkey, "aa".repeat(32));
    assert_eq!(planned.outgoing.recipient.to_hex(), "aa".repeat(32));
    assert_eq!(planned.outgoing.template.content, r#"{"jsonrpc":"2.0","id":7,"result":{}}"#);
    assert!(!planned.sends_common_tags);
    assert!(server.sessions.sessions.get(&"aa".repeat(32)).unwrap().is_initialized);
}

#[test]
fn a_progress_token_that_names_another_request_takes_its_id() {
    let mut server = NostrServerTransport::new(NostrServerTransportConfig::default());
    let first = "01".repeat(32);
    let call = r#"{"jsonrpc":"2.0","id":7,"method":"m"}"#;
    server.on_delivery(&delivery("aa", 1, call));
    let naming = format!(
        "{{\"jsonrpc\":\"2.0\",\"id\":8,\"method\":\"m\",\"params\":{{\"_meta\":{{\"progressToken\":\"{first}\"}}}}}}"
    );
    // Another client's token has no hold on it, the client's own has.
    server.on_delivery(&delivery("bb", 2, &naming));
    let planned = server.send_response(&first, answer()).unwrap();
    assert!(planned.outgoing.template.content.contains("\"id\":7,"));
    server.on_delivery(&delivery("aa", 3, &naming));
    let planned = server.send_response(&first, answer()).unwrap();
    assert!(!planned.outgoing.template.content.contains("\"id\":7,"));
}

#[test]
fn late_answers_and_progress_find_their_request_in_the_session() {
    let mut server = session_server::NostrServerTransport::new(NostrServerTransportConfig::default());
    let first = "01".repeat(32);
    let call = |id: u8, token: &str| {
        format!(
            "{{\"jsonrpc\":\"2.0\",\"id\":{id},\"method\":\"m\",\"params\":{{\"_meta\":{{\"progressToken\":\"{token}\"}}}}}}"
        )
    };
    server.on_delivery(&delivery("aa", 1, &call(7, "t")));
    // A token that names the event has no hold on the request.
    server.on_delivery(&delivery("aa", 2, &call(8, &first)));
    server.on_delivery(&delivery("bb", 3, &call(9, "t")));
    let second = "02".repeat(32);
    let planned = server.send_response(&second, answer()).unwrap();
    server.response_sent(&second, &planned);
    let mut idle: StringMap<Duration> = StringMap::new();
    idle.insert("bb".repeat(32), Duration::from_secs(301));
    assert_eq!(server.expire_sessions(&idle, Duration::from_secs(300)), 1);

    let progress = JsonRpcMessage::Notification(JsonRpcNotification {
        jsonrpc: "2.0".to_string(),
        method: "notifications/progress".to_string(),
        params: Some(json(r#"{"progressToken":"t"}"#)),
    });
    let sent = server.send_notification(&"aa".repeat(32), &progress, None).unwrap();
    assert_eq!(sent.template.tags[1].to_vec(), vec!["e".to_string(), first.clone()]);
    let planned = server.send_response(&first, answer()).unwrap();
    assert_eq!(planned.outgoing.recipient.to_hex(), "aa".repeat(32));
    assert_eq!(planned.outgoing.template.content, r#"{"jsonrpc":"2.0","id":7,"result":{}}"#);
    assert!(!planned.sends_common_tags);
}
