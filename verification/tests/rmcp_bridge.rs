//! The bridge to rmcp, each step of a message's way.

use contextvm_sdk::protocol::json::Json;
use contextvm_sdk::protocol::serializers::nostr_event_to_mcp_message;
use contextvm_sdk::protocol::types::{
    JsonRpcError, JsonRpcErrorResponse, JsonRpcMessage, JsonRpcNotification, JsonRpcRequest,
    JsonRpcResponse,
};
use contextvm_sdk::protocol::wire::read_message;
use contextvm_sdk::rmcp_transport::convert::{
    internal_to_rmcp_client_rx, internal_to_rmcp_server_rx, rmcp_client_tx_to_internal,
    rmcp_server_tx_to_internal,
};
use contextvm_sdk::rmcp_transport::worker::{
    ClientWorkerAction, ClientWorkerEvent, Forwarded, NostrClientWorker, NostrServerWorker,
    QuitReason, ServerWorkerAction, ServerWorkerEvent,
};
use contextvm_sdk::protocol::error::Error;
use contextvm_sdk::transport::base::{StartAction, StartEvent};
use contextvm_sdk::transport::client::{NostrClientTransportConfig, Sending};
use contextvm_sdk::transport::inbound::IncomingRequest;
use contextvm_sdk::transport::server::config::NostrServerTransportConfig;
use rmcp::model::{
    ClientJsonRpcMessage, ClientResult, RequestId, ServerJsonRpcMessage, ServerResult,
};

fn json(text: &str) -> Json {
    Json::from_text(text).expect("valid JSON")
}

/// A message of rmcp as it is written.
fn server_wire(message: ServerJsonRpcMessage) -> Json {
    json(&serde_json::to_string(&message).unwrap())
}

fn client_wire(message: ClientJsonRpcMessage) -> Json {
    json(&serde_json::to_string(&message).unwrap())
}

fn make_request(method: &str, id: Json, params: Option<Json>) -> JsonRpcMessage {
    JsonRpcMessage::Request(JsonRpcRequest {
        jsonrpc: "2.0".to_string(),
        id,
        method: method.to_string(),
        params,
    })
}

// ── Conversion ─────────────────────────────────────────────────────────────

#[test]
fn test_internal_request_to_rmcp_server_rx_ping() {
    let internal = make_request("ping", json("1"), None);

    let value = internal_to_rmcp_server_rx(&internal)
        .expect("expected conversion to rmcp server rx message");

    assert_eq!(value.get("method"), Some(&json("\"ping\"")));
    assert_eq!(value.get("id"), Some(&json("1")));
}

#[test]
fn test_internal_response_to_rmcp_client_rx_empty_result() {
    let internal = JsonRpcMessage::Response(JsonRpcResponse {
        jsonrpc: "2.0".to_string(),
        id: json("42"),
        result: json("{}"),
    });

    let value = internal_to_rmcp_client_rx(&internal)
        .expect("expected conversion to rmcp client rx message");

    assert_eq!(value.get("id"), Some(&json("42")));
    assert_eq!(value.get("result"), Some(&json("{}")));
}

#[test]
fn test_rmcp_server_tx_to_internal_response() {
    let rmcp_msg =
        ServerJsonRpcMessage::response(ServerResult::empty(()), RequestId::Number(7));

    let internal = rmcp_server_tx_to_internal(&server_wire(rmcp_msg))
        .expect("expected conversion from rmcp server tx to internal JSON-RPC");

    match internal {
        JsonRpcMessage::Response(resp) => {
            assert_eq!(resp.id, json("7"));
            assert_eq!(resp.result, json("{}"));
        }
        other => panic!("expected internal response, got {other:?}"),
    }
}

#[test]
fn test_rmcp_client_tx_to_internal_response() {
    let rmcp_msg =
        ClientJsonRpcMessage::response(ClientResult::empty(()), RequestId::Number(9));

    let internal = rmcp_client_tx_to_internal(&client_wire(rmcp_msg))
        .expect("expected conversion from rmcp client tx to internal JSON-RPC");

    match internal {
        JsonRpcMessage::Response(resp) => {
            assert_eq!(resp.id, json("9"));
            assert_eq!(resp.result, json("{}"));
        }
        other => panic!("expected internal response, got {other:?}"),
    }
}

#[test]
fn test_server_rx_roundtrip_preserves_wire_shape() {
    let internal = make_request("ping", json("\"abc\""), None);

    let value = internal_to_rmcp_server_rx(&internal)
        .expect("expected conversion to rmcp server rx message");
    let roundtrip_internal = read_message(&value).expect("deserialize back to internal JSON-RPC");

    match roundtrip_internal {
        JsonRpcMessage::Request(req) => {
            assert_eq!(req.id, json("\"abc\""));
            assert_eq!(req.method, "ping");
        }
        other => panic!("expected internal request, got {other:?}"),
    }
}

#[test]
fn messages_that_rmcp_does_not_know_are_not_converted() {
    // The id of an answer is a number or a text there.
    assert!(internal_to_rmcp_server_rx(&response(json("null"))).is_none());
    assert!(internal_to_rmcp_client_rx(&response(json("{}"))).is_none());
    assert!(rmcp_server_tx_to_internal(&json("{}")).is_none());
}

// ── Layer 1: Nostr event content → JsonRpcMessage ──────────────────────

#[test]
fn layer1_nostr_content_to_internal_request() {
    let content = r#"{"jsonrpc":"2.0","id":1,"method":"ping","params":{}}"#;
    let msg = nostr_event_to_mcp_message(content).expect("valid MCP request should parse");

    assert!(msg.is_request());
    assert_eq!(msg.method(), Some("ping"));
    assert_eq!(msg.id(), Some(&json("1")));
}

#[test]
fn layer1_nostr_content_to_internal_tools_list() {
    let content = r#"{"jsonrpc":"2.0","id":"abc","method":"tools/list","params":{}}"#;
    let msg = nostr_event_to_mcp_message(content).unwrap();
    assert_eq!(msg.method(), Some("tools/list"));
    assert_eq!(msg.id(), Some(&json("\"abc\"")));
}

#[test]
fn layer1_nostr_content_to_internal_notification() {
    let content = r#"{"jsonrpc":"2.0","method":"notifications/initialized"}"#;
    let msg = nostr_event_to_mcp_message(content).unwrap();
    assert!(!msg.is_request());
    assert_eq!(msg.method(), Some("notifications/initialized"));
}

#[test]
fn layer1_nostr_content_invalid_json_returns_none() {
    assert!(nostr_event_to_mcp_message("not json").is_none());
}

#[test]
fn layer1_nostr_event_to_mcp_message_no_version_check() {
    // The version is looked at one layer up; here any text is taken.
    let content = r#"{"jsonrpc":"1.0","id":1,"method":"ping"}"#;
    let msg = nostr_event_to_mcp_message(content).expect("any version is read");
    assert_eq!(msg.method(), Some("ping"));
}

// ── Layer 2: JsonRpcMessage → rmcp RxJsonRpcMessage (server) ───────────

#[test]
fn layer2_internal_request_converts_to_rmcp_server_rx() {
    let msg = make_request("ping", json("1"), None);
    let v = internal_to_rmcp_server_rx(&msg).expect("ping should convert");

    assert_eq!(v.get("method"), Some(&json("\"ping\"")));
    assert_eq!(v.get("id"), Some(&json("1")));
    assert_eq!(v.get("jsonrpc"), Some(&json("\"2.0\"")));
}

#[test]
fn layer2_string_id_preserved_through_bridge() {
    let msg = make_request("tools/list", json("\"req-xyz\""), None);
    let v = internal_to_rmcp_server_rx(&msg).unwrap();
    assert_eq!(v.get("id"), Some(&json("\"req-xyz\"")));
}

#[test]
fn layer2_notification_converts_to_rmcp_server_rx() {
    let msg = JsonRpcMessage::Notification(JsonRpcNotification {
        jsonrpc: "2.0".to_string(),
        method: "notifications/initialized".to_string(),
        params: None,
    });
    let v = internal_to_rmcp_server_rx(&msg).expect("initialized notification should convert");
    assert_eq!(v.get("method"), Some(&json("\"notifications/initialized\"")));
}

#[test]
fn layer2_tools_list_with_params_converts() {
    let msg = make_request(
        "tools/list",
        json("7"),
        Some(json(r#"{"cursor": "next-page"}"#)),
    );
    let v = internal_to_rmcp_server_rx(&msg).unwrap();
    assert_eq!(v.get("method"), Some(&json("\"tools/list\"")));
    assert_eq!(
        v.get("params").and_then(|params| params.get("cursor")),
        Some(&json("\"next-page\""))
    );
}

// ── Layer 3+4: Simulated handler → rmcp response → internal ────────────

#[test]
fn layer4_rmcp_ping_response_roundtrip_number_id() {
    // Simulate rmcp handler producing a ping response
    let rmcp_response =
        ServerJsonRpcMessage::response(ServerResult::empty(()), RequestId::Number(42));
    let internal = rmcp_server_tx_to_internal(&server_wire(rmcp_response))
        .expect("ping response should convert back");

    match internal {
        JsonRpcMessage::Response(r) => {
            assert_eq!(r.id, json("42"));
            assert_eq!(r.jsonrpc, "2.0");
        }
        other => panic!("expected Response, got {other:?}"),
    }
}

#[test]
fn layer4_rmcp_ping_response_roundtrip_string_id() {
    let rmcp_response = ServerJsonRpcMessage::response(
        ServerResult::empty(()),
        RequestId::String(std::sync::Arc::from("req-xyz")),
    );
    let internal = rmcp_server_tx_to_internal(&server_wire(rmcp_response)).unwrap();

    match internal {
        JsonRpcMessage::Response(r) => {
            assert_eq!(r.id, json("\"req-xyz\""));
        }
        other => panic!("expected Response, got {other:?}"),
    }
}

// ── Full roundtrip: internal → rmcp → internal ──────────────────────────

#[test]
fn full_server_roundtrip_request_id_preserved() {
    // Layer 2: convert incoming request to rmcp
    let original = make_request("ping", json("99"), None);
    let rmcp_value = internal_to_rmcp_server_rx(&original).unwrap();

    // Extract the ID that rmcp sees
    assert_eq!(rmcp_value.get("id"), Some(&json("99")));

    // Layer 4: rmcp produces a response with the same ID echoed back
    let rmcp_tx = ServerJsonRpcMessage::response(ServerResult::empty(()), RequestId::Number(99));
    let response = rmcp_server_tx_to_internal(&server_wire(rmcp_tx)).unwrap();

    // The response ID must equal the original request ID
    assert_eq!(response.id(), Some(&json("99")));
}

#[test]
fn full_client_roundtrip_response_id_preserved() {
    // Client side: rmcp produces an outbound request
    let rmcp_tx = ClientJsonRpcMessage::response(ClientResult::empty(()), RequestId::Number(7));
    let internal = rmcp_client_tx_to_internal(&client_wire(rmcp_tx)).unwrap();
    assert_eq!(internal.id(), Some(&json("7")));

    // And an incoming server response converts to rmcp correctly
    let incoming_response = JsonRpcMessage::Response(JsonRpcResponse {
        jsonrpc: "2.0".to_string(),
        id: json("7"),
        result: json(r#"{"tools": []}"#),
    });
    let v = internal_to_rmcp_client_rx(&incoming_response).unwrap();
    assert_eq!(v.get("id"), Some(&json("7")));
    assert_eq!(
        v.get("result").and_then(|result| result.get("tools")),
        Some(&json("[]"))
    );
}

// ── Layer 5: ID correlation in the worker ────────────────────────────────

fn incoming(client: &str, event_id: &str, message: JsonRpcMessage) -> IncomingRequest {
    IncomingRequest {
        message,
        client_pubkey: client.to_string(),
        event_id: event_id.to_string(),
        is_encrypted: false,
    }
}

fn response(id: Json) -> JsonRpcMessage {
    JsonRpcMessage::Response(JsonRpcResponse {
        jsonrpc: "2.0".to_string(),
        id,
        result: json("{}"),
    })
}

fn reason(result: Result<Forwarded, Error>) -> String {
    match result {
        Ok(forwarded) => panic!("expected a failure, got {forwarded:?}"),
        Err(error) => error.reason().to_string(),
    }
}

#[test]
fn layer5_worker_correlation_map_number_id() {
    let mut worker = NostrServerWorker::new(NostrServerTransportConfig::default());

    // Step 1: incoming request arrives — worker stores req_id → event_id
    let req = make_request("tools/list", json("42"), None);
    assert!(worker.bind(&incoming("pk", "aaaaaa", req)));
    assert_eq!(worker.request_id_to_event_id.get("42"), Some(&"aaaaaa".to_string()));

    // Step 2: rmcp response comes back with id=42, and goes to that event
    let result = worker.forward_server_internal(response(json("42")));
    assert_eq!(reason(result), "No client found for event aaaaaa");

    // Map should be empty after handling
    assert!(worker.request_id_to_event_id.is_empty());
}

#[test]
fn layer5_worker_correlation_map_string_id() {
    let mut worker = NostrServerWorker::new(NostrServerTransportConfig::default());

    // String IDs serialize with surrounding quotes: "\"req-abc\""
    let req = make_request("tools/list", json("\"req-abc\""), None);
    assert!(worker.bind(&incoming("pk", "bbbbbb", req)));
    assert_eq!(
        worker.request_id_to_event_id.get("\"req-abc\""),
        Some(&"bbbbbb".to_string())
    );

    // Key derived from response ID must match the one stored from request ID
    let result = worker.forward_server_internal(response(json("\"req-abc\"")));
    assert_eq!(reason(result), "No client found for event bbbbbb");
    assert!(worker.request_id_to_event_id.is_empty());
}

#[test]
fn layer5_error_response_correlation_works() {
    let mut worker = NostrServerWorker::new(NostrServerTransportConfig::default());
    let req = make_request("nope", json("5"), None);
    assert!(worker.bind(&incoming("pk", "evt5", req)));

    let error_response = JsonRpcMessage::ErrorResponse(JsonRpcErrorResponse {
        jsonrpc: "2.0".to_string(),
        id: json("5"),
        error: JsonRpcError {
            code: -32601,
            message: "Method not found".to_string(),
            data: None,
        },
    });
    let result = worker.forward_server_internal(error_response);
    assert_eq!(reason(result), "No client found for event evt5");
    assert!(worker.request_id_to_event_id.is_empty());
}

#[test]
fn answers_without_a_request_name_their_event_or_fail() {
    let mut worker = NostrServerWorker::new(NostrServerTransportConfig::default());
    let result = worker.forward_server_internal(response(json("\"evt\"")));
    assert_eq!(reason(result), "No client found for event evt");
    let result = worker.forward_server_internal(response(json("8")));
    assert_eq!(
        reason(result),
        "rmcp server response id has no known correlation mapping and is not a string event id"
    );
    let error_response = JsonRpcMessage::ErrorResponse(JsonRpcErrorResponse {
        jsonrpc: "2.0".to_string(),
        id: json("8"),
        error: JsonRpcError { code: 1, message: "m".to_string(), data: None },
    });
    assert_eq!(
        reason(worker.forward_server_internal(error_response)),
        "rmcp server error response id has no known correlation mapping and is not a string event id"
    );
}

#[test]
fn messages_on_their_own_go_to_the_bound_client() {
    let mut worker = NostrServerWorker::new(NostrServerTransportConfig::default());
    let notice = JsonRpcMessage::Notification(JsonRpcNotification {
        jsonrpc: "2.0".to_string(),
        method: "notifications/tools/list_changed".to_string(),
        params: None,
    });
    assert_eq!(
        reason(worker.forward_server_internal(notice.clone())),
        "cannot forward rmcp server notification: no active client bound"
    );
    assert_eq!(
        reason(worker.forward_server_internal(make_request("ping", json("1"), None))),
        "cannot forward rmcp server request: no active client bound"
    );

    let client = "ab".repeat(32);
    worker.transport.sessions.get_or_create_session(&client, false);
    assert!(worker.bind(&incoming(&client, "evt", notice.clone())));
    match worker.forward_server_internal(notice) {
        Ok(Forwarded::Notification(outgoing)) => {
            assert_eq!(outgoing.recipient.to_hex(), client);
        }
        other => panic!("expected a notification, got {other:?}"),
    }
}

// ── The workers' loops ───────────────────────────────────────────────────────

#[test]
fn server_worker_listens_to_one_client() {
    let mut worker = NostrServerWorker::new(NostrServerTransportConfig::default());
    assert_eq!(worker.transport().config.relay_urls.len(), 1);
    let first = incoming("one", "e1", make_request("ping", json("1"), None));
    match worker.run(ServerWorkerEvent::Incoming(Some(first))) {
        ServerWorkerAction::ToHandler(message) => {
            assert_eq!(message.get("method"), Some(&json("\"ping\"")));
        }
        _ => panic!("expected the message for the handler"),
    }
    let second = incoming("two", "e2", make_request("ping", json("1"), None));
    assert!(matches!(
        worker.run(ServerWorkerEvent::Incoming(Some(second))),
        ServerWorkerAction::IgnoredClient
    ));
    // The other client's request is not kept.
    assert_eq!(worker.request_id_to_event_id.get("1"), Some(&"e1".to_string()));
    // Not known to rmcp.
    let odd = incoming("one", "e3", response(json("null")));
    assert!(matches!(
        worker.run(ServerWorkerEvent::Incoming(Some(odd))),
        ServerWorkerAction::Unconvertible
    ));
    // A request that carries the id again takes its place.
    let again = incoming("one", "e4", make_request("ping", json("1"), None));
    assert!(matches!(
        worker.run(ServerWorkerEvent::Incoming(Some(again))),
        ServerWorkerAction::ToHandler(_)
    ));
    assert_eq!(worker.request_id_to_event_id.get("1"), Some(&"e4".to_string()));
}

#[test]
fn server_worker_quits_and_replies() {
    let mut worker = NostrServerWorker::new(NostrServerTransportConfig::default());
    assert!(matches!(
        worker.run(ServerWorkerEvent::Cancelled),
        ServerWorkerAction::Quit(QuitReason::Cancelled)
    ));
    assert!(matches!(
        worker.run(ServerWorkerEvent::Incoming(None)),
        ServerWorkerAction::Quit(QuitReason::TransportClosed)
    ));
    match worker.run(ServerWorkerEvent::Outbound(json("[]"))) {
        ServerWorkerAction::Reply(result) => assert_eq!(
            reason(result),
            "failed converting rmcp server message to internal JSON-RPC"
        ),
        _ => panic!("expected a reply"),
    }
    let wire = server_wire(ServerJsonRpcMessage::response(
        ServerResult::empty(()),
        RequestId::String(std::sync::Arc::from("evt")),
    ));
    match worker.run(ServerWorkerEvent::Outbound(wire)) {
        ServerWorkerAction::Reply(result) => {
            assert_eq!(reason(result), "No client found for event evt")
        }
        _ => panic!("expected a reply"),
    }
}

#[test]
fn answers_find_their_event_whatever_comes_in_between() {
    let mut worker = NostrServerWorker::new(NostrServerTransportConfig::default());
    assert!(worker.bind(&incoming("pk", "first", make_request("m", json("1"), None))));
    assert!(worker.bind(&incoming("pk", "second", make_request("m", json("\"1\""), None))));
    assert!(worker.bind(&incoming("pk", "third", make_request("m", json("2"), None))));
    let result = worker.forward_server_internal(response(json("2")));
    assert_eq!(reason(result), "No client found for event third");
    let result = worker.forward_server_internal(response(json("1")));
    assert_eq!(reason(result), "No client found for event first");
    // Once answered, the id names nothing any more.
    let result = worker.forward_server_internal(response(json("1")));
    assert!(reason(result).contains("no known correlation mapping"));
    let result = worker.forward_server_internal(response(json("\"1\"")));
    assert_eq!(reason(result), "No client found for event second");
}

#[test]
fn starting_keeps_the_configuration() {
    let mut worker = NostrServerWorker::new(NostrServerTransportConfig {
        relay_urls: vec!["wss://one".to_string(), "wss://two".to_string()],
        is_announced_server: true,
        log_file_path: Some("log".to_string()),
        ..Default::default()
    });
    worker.start(StartEvent::Begin);
    worker.start(StartEvent::Connected(Ok(())));
    worker.start(StartEvent::Subscribed(Ok(())));
    let config = &worker.transport().config;
    assert_eq!(config.relay_urls, vec!["wss://one".to_string(), "wss://two".to_string()]);
    assert!(config.is_announced_server);
    assert_eq!(config.log_file_path.as_deref(), Some("log"));
}

#[test]
fn workers_start_once() {
    let mut worker = NostrServerWorker::new(NostrServerTransportConfig::default());
    assert!(matches!(worker.start(StartEvent::Begin), StartAction::Connect));
    assert!(matches!(worker.start(StartEvent::Connected(Ok(()))), StartAction::FetchKey));
    assert!(matches!(worker.start(StartEvent::Subscribed(Ok(()))), StartAction::Run));
    match worker.start(StartEvent::Subscribed(Ok(()))) {
        StartAction::Fail(error) => {
            assert_eq!(error.reason(), "server message receiver already taken")
        }
        _ => panic!("expected a failure"),
    }
}

#[test]
fn client_worker_passes_messages_both_ways() {
    let mut worker = match NostrClientWorker::new(NostrClientTransportConfig {
        server_pubkey: "ab".repeat(32),
        ..Default::default()
    }) {
        Ok(worker) => worker,
        Err(error) => panic!("{}", error.reason()),
    };
    assert_eq!(worker.transport().server_pubkey.to_hex(), "ab".repeat(32));
    assert!(matches!(worker.start(StartEvent::Subscribed(Ok(()))), StartAction::Run));
    match worker.start(StartEvent::Subscribed(Ok(()))) {
        StartAction::Fail(error) => {
            assert_eq!(error.reason(), "client message receiver already taken")
        }
        _ => panic!("expected a failure"),
    }
    assert!(matches!(
        worker.run(ClientWorkerEvent::Cancelled),
        ClientWorkerAction::Quit(QuitReason::Cancelled)
    ));
    assert!(matches!(
        worker.run(ClientWorkerEvent::Incoming(None)),
        ClientWorkerAction::Quit(QuitReason::TransportClosed)
    ));
    match worker.run(ClientWorkerEvent::Incoming(Some(response(json("3"))))) {
        ClientWorkerAction::ToHandler(message) => {
            assert_eq!(message.get("id"), Some(&json("3")));
        }
        _ => panic!("expected the message for the handler"),
    }
    assert!(matches!(
        worker.run(ClientWorkerEvent::Incoming(Some(response(json("null"))))),
        ClientWorkerAction::Unconvertible
    ));
    let wire = client_wire(ClientJsonRpcMessage::response(
        ClientResult::empty(()),
        RequestId::Number(9),
    ));
    match worker.run(ClientWorkerEvent::Outbound(wire)) {
        ClientWorkerAction::Send(message, Sending::Send(outgoing)) => {
            assert_eq!(message.id(), Some(&json("9")));
            assert_eq!(outgoing.recipient.to_hex(), "ab".repeat(32));
        }
        _ => panic!("expected a message to send"),
    }
    match worker.run(ClientWorkerEvent::Outbound(json("0"))) {
        ClientWorkerAction::Fail(error) => assert_eq!(
            error.reason(),
            "failed converting rmcp client message to internal JSON-RPC"
        ),
        _ => panic!("expected a failure"),
    }
}
