//! The server transport that keeps routes in the sessions.

use contextvm_sdk::protocol::constants::tags as tag_names;
use contextvm_sdk::protocol::constants::{EPHEMERAL_GIFT_WRAP_KIND, GIFT_WRAP_KIND};
use contextvm_sdk::protocol::json::Json;
use contextvm_sdk::protocol::nostr::Tag;
use contextvm_sdk::protocol::types::{
    CapabilityExclusion, EncryptionMode, GiftWrapMode, JsonRpcMessage, JsonRpcNotification,
    JsonRpcResponse, ServerInfo,
};
use contextvm_sdk::transport::server::config::NostrServerTransportConfig;
use contextvm_sdk::transport::session_server::session::{ClientSession, PendingRequestRoute};
use contextvm_sdk::transport::session_server::NostrServerTransport;
use contextvm_sdk::util::string_map::StringMap;
use contextvm_sdk::util::time::Duration;

fn json(text: &str) -> Json {
    Json::from_text(text).expect("valid JSON")
}

fn wait(millis: u128) {
    let start = std::time::Instant::now();
    while start.elapsed().as_millis() < millis {}
}

fn response(result: &str) -> JsonRpcMessage {
    JsonRpcMessage::Response(JsonRpcResponse {
        jsonrpc: "2.0".to_string(),
        id: json("0"),
        result: json(result),
    })
}

// ── Session management ──────────────────────────────────────

#[test]
fn server_test_client_session_creation() {
    let session = ClientSession::new(true);
    assert!(!session.is_initialized);
    assert!(!session.has_sent_common_tags);
    assert!(session.is_encrypted);
    assert!(session.pending_requests.is_empty());
    assert!(session.progress_token_to_event.is_empty());
}

#[test]
fn server_test_cleanup_sessions_removes_expired() {
    let mut transport = NostrServerTransport::new(NostrServerTransportConfig::default());

    // Insert a session with an old activity time
    let mut session = ClientSession::new(false);
    session.pending_requests.insert(
        "evt1".to_string(),
        PendingRequestRoute {
            original_request_id: json("1"),
            progress_token: Some("token1".to_string()),
            wrap_kind: None,
        },
    );
    session
        .progress_token_to_event
        .insert("token1".to_string(), "evt1".to_string());
    transport.sessions.insert("pubkey1".to_string(), session);
    transport
        .event_to_client
        .insert("evt1".to_string(), "pubkey1".to_string());

    // With a long timeout, nothing should be cleaned
    let cleaned = transport.cleanup_sessions(Duration::from_secs(300));
    assert_eq!(cleaned, 0);
    assert_eq!(transport.sessions.len(), 1);

    // With zero timeout, it should be cleaned
    wait(5);
    let cleaned = transport.cleanup_sessions(Duration::from_millis(1));
    assert_eq!(cleaned, 1);
    assert!(transport.sessions.is_empty());
    assert!(transport.event_to_client.is_empty());
}

#[test]
fn server_test_cleanup_preserves_active_sessions() {
    let mut transport = NostrServerTransport::new(NostrServerTransportConfig::default());
    transport
        .sessions
        .insert("active".to_string(), ClientSession::new(false));

    let cleaned = transport.cleanup_sessions(Duration::from_secs(300));
    assert_eq!(cleaned, 0);
    assert_eq!(transport.sessions.len(), 1);
}

#[test]
fn routes_of_other_sessions_stay() {
    let mut transport = NostrServerTransport::new(NostrServerTransportConfig::default());
    for client in ["old", "young"] {
        let mut session = ClientSession::new(false);
        session.pending_requests.insert(
            format!("evt-{client}"),
            PendingRequestRoute {
                original_request_id: json("1"),
                progress_token: None,
                wrap_kind: None,
            },
        );
        transport.sessions.insert(client.to_string(), session);
        transport
            .event_to_client
            .insert(format!("evt-{client}"), client.to_string());
    }
    let mut idle: StringMap<Duration> = StringMap::new();
    idle.insert("old".to_string(), Duration::from_millis(2));
    idle.insert("young".to_string(), Duration::from_millis(1));
    assert_eq!(transport.expire_sessions(&idle, Duration::from_millis(1)), 1);
    assert!(!transport.sessions.contains_key("old"));
    assert!(!transport.event_to_client.contains_key("evt-old"));
    assert!(transport.event_to_client.contains_key("evt-young"));
}

// ── Request ID correlation ──────────────────────────────────

#[test]
fn server_test_pending_request_tracking() {
    let mut session = ClientSession::new(false);
    let route = PendingRequestRoute {
        original_request_id: json("42"),
        progress_token: None,
        wrap_kind: Some(GIFT_WRAP_KIND),
    };
    session
        .pending_requests
        .insert("event_abc".to_string(), route.clone());
    assert_eq!(
        session
            .pending_requests
            .get("event_abc")
            .map(|route| route.original_request_id.clone()),
        Some(json("42"))
    );
    assert_eq!(
        session
            .pending_requests
            .get("event_abc")
            .and_then(|route| route.wrap_kind),
        route.wrap_kind
    );
}

#[test]
fn server_test_progress_token_tracking() {
    let mut session = ClientSession::new(false);
    session
        .progress_token_to_event
        .insert("token1".to_string(), "evt1".to_string());
    session.pending_requests.insert(
        "evt1".to_string(),
        PendingRequestRoute {
            original_request_id: json("\"evt1\""),
            progress_token: Some("token1".to_string()),
            wrap_kind: None,
        },
    );
    assert_eq!(
        session.progress_token_to_event.get("token1"),
        Some(&"evt1".to_string())
    );
}

#[test]
fn test_resolve_notification_correlation_uses_progress_token_mapping() {
    let mut session = ClientSession::new(true);
    session
        .progress_token_to_event
        .insert("token1".to_string(), "evt1".to_string());
    let notification = JsonRpcMessage::Notification(JsonRpcNotification {
        jsonrpc: "2.0".to_string(),
        method: "notifications/progress".to_string(),
        params: Some(json(r#"{ "progressToken": "token1" }"#)),
    });

    assert_eq!(
        NostrServerTransport::resolve_notification_correlation(&session, &notification, None),
        Some("evt1".to_string())
    );
    // A given event comes first.
    assert_eq!(
        NostrServerTransport::resolve_notification_correlation(
            &session,
            &notification,
            Some("evt2")
        ),
        Some("evt2".to_string())
    );
}

#[test]
fn kinds_of_response_are_told_apart() {
    let initialize = response(r#"{"protocolVersion":"x","serverInfo":{}}"#);
    assert!(NostrServerTransport::is_initialize_result_response(&initialize));
    assert!(!NostrServerTransport::is_initialize_result_response(&response(
        r#"{"protocolVersion":"x"}"#
    )));
    for name in ["tools", "resources", "resourceTemplates", "prompts"] {
        let list = response(&format!(r#"{{"{name}":[]}}"#));
        assert!(NostrServerTransport::is_capability_list_response(&list));
    }
    assert!(!NostrServerTransport::is_capability_list_response(&initialize));
}

// ── Config defaults ─────────────────────────────────────────

#[test]
fn server_test_encryption_mode_default() {
    let config = NostrServerTransportConfig::default();
    assert_eq!(config.encryption_mode, EncryptionMode::Optional);
    assert_eq!(config.gift_wrap_mode, GiftWrapMode::Optional);
}

#[test]
fn server_test_config_defaults() {
    let config = NostrServerTransportConfig::default();
    assert_eq!(config.relay_urls, vec!["wss://relay.damus.io".to_string()]);
    assert!(!config.is_announced_server);
    assert!(config.allowed_public_keys.is_empty());
    assert!(config.excluded_capabilities.is_empty());
    assert_eq!(config.cleanup_interval, Duration::from_secs(60));
    assert_eq!(config.session_timeout, Duration::from_secs(300));
    assert_eq!(config.gift_wrap_mode, GiftWrapMode::Optional);
    assert!(config.server_info.is_none());
    assert!(config.log_file_path.is_none());
}

// ── Gift-wrap kind selection ────────────────────────────────

#[test]
fn test_select_outbound_gift_wrap_kind_optional_mode_mirrors_client_kind() {
    assert_eq!(
        NostrServerTransport::select_outbound_gift_wrap_kind(
            GiftWrapMode::Optional,
            true,
            Some(EPHEMERAL_GIFT_WRAP_KIND),
        ),
        Some(EPHEMERAL_GIFT_WRAP_KIND)
    );
    assert_eq!(
        NostrServerTransport::select_outbound_gift_wrap_kind(
            GiftWrapMode::Optional,
            true,
            Some(GIFT_WRAP_KIND),
        ),
        Some(GIFT_WRAP_KIND)
    );
    assert_eq!(
        NostrServerTransport::select_outbound_gift_wrap_kind(
            GiftWrapMode::Persistent,
            true,
            Some(EPHEMERAL_GIFT_WRAP_KIND),
        ),
        Some(GIFT_WRAP_KIND)
    );
    assert_eq!(
        NostrServerTransport::select_outbound_gift_wrap_kind(
            GiftWrapMode::Ephemeral,
            true,
            Some(GIFT_WRAP_KIND),
        ),
        Some(EPHEMERAL_GIFT_WRAP_KIND)
    );
}

#[test]
fn test_select_outbound_notification_gift_wrap_kind_optional_mode_uses_default_persistent() {
    assert_eq!(
        NostrServerTransport::select_outbound_notification_gift_wrap_kind(
            GiftWrapMode::Optional,
            true,
            None,
        ),
        None
    );
    assert_eq!(
        NostrServerTransport::select_outbound_notification_gift_wrap_kind(
            GiftWrapMode::Optional,
            true,
            Some(EPHEMERAL_GIFT_WRAP_KIND),
        ),
        Some(EPHEMERAL_GIFT_WRAP_KIND)
    );
    assert_eq!(
        NostrServerTransport::select_outbound_notification_gift_wrap_kind(
            GiftWrapMode::Persistent,
            true,
            None,
        ),
        Some(GIFT_WRAP_KIND)
    );
    assert_eq!(
        NostrServerTransport::select_outbound_notification_gift_wrap_kind(
            GiftWrapMode::Ephemeral,
            true,
            None,
        ),
        Some(EPHEMERAL_GIFT_WRAP_KIND)
    );
}

// ── Authorization (is_capability_excluded) ──────────────────

#[test]
fn server_test_initialize_always_excluded() {
    assert!(NostrServerTransport::is_capability_excluded(
        &[],
        "initialize",
        None
    ));
    assert!(NostrServerTransport::is_capability_excluded(
        &[],
        "notifications/initialized",
        None
    ));
}

#[test]
fn server_test_method_excluded_without_name() {
    let exclusions = vec![CapabilityExclusion {
        method: "tools/list".to_string(),
        name: None,
    }];
    assert!(NostrServerTransport::is_capability_excluded(
        &exclusions,
        "tools/list",
        None
    ));
    assert!(NostrServerTransport::is_capability_excluded(
        &exclusions,
        "tools/list",
        Some("anything")
    ));
}

#[test]
fn server_test_method_excluded_with_name() {
    let exclusions = vec![CapabilityExclusion {
        method: "tools/call".to_string(),
        name: Some("get_weather".to_string()),
    }];
    assert!(NostrServerTransport::is_capability_excluded(
        &exclusions,
        "tools/call",
        Some("get_weather")
    ));
    assert!(!NostrServerTransport::is_capability_excluded(
        &exclusions,
        "tools/call",
        Some("other_tool")
    ));
    assert!(!NostrServerTransport::is_capability_excluded(
        &exclusions,
        "tools/call",
        None
    ));
}

#[test]
fn server_test_non_excluded_method() {
    let exclusions = vec![CapabilityExclusion {
        method: "tools/list".to_string(),
        name: None,
    }];
    assert!(!NostrServerTransport::is_capability_excluded(
        &exclusions,
        "tools/call",
        None
    ));
    assert!(!NostrServerTransport::is_capability_excluded(
        &exclusions,
        "resources/list",
        None
    ));
}

#[test]
fn server_test_empty_exclusions_non_init_method() {
    assert!(!NostrServerTransport::is_capability_excluded(
        &[],
        "tools/list",
        None
    ));
    assert!(!NostrServerTransport::is_capability_excluded(
        &[],
        "tools/call",
        Some("x")
    ));
}

// ── Tags ────────────────────────────────────────────────────

#[test]
fn server_test_append_transport_capability_tags_respects_gift_wrap_mode() {
    let mut tags = Vec::new();
    NostrServerTransport::append_transport_capability_tags(
        &mut tags,
        EncryptionMode::Optional,
        GiftWrapMode::Persistent,
    );
    let rendered: Vec<Vec<String>> = tags.iter().cloned().map(|t| t.to_vec()).collect();
    assert!(rendered
        .iter()
        .any(|t| t[0] == tag_names::SUPPORT_ENCRYPTION));
    assert!(!rendered
        .iter()
        .any(|t| { t[0] == tag_names::SUPPORT_ENCRYPTION_EPHEMERAL }));

    let mut tags = Vec::new();
    NostrServerTransport::append_transport_capability_tags(
        &mut tags,
        EncryptionMode::Optional,
        GiftWrapMode::Optional,
    );
    let rendered: Vec<Vec<String>> = tags.iter().cloned().map(|t| t.to_vec()).collect();
    assert!(rendered
        .iter()
        .any(|t| { t[0] == tag_names::SUPPORT_ENCRYPTION_EPHEMERAL }));
}

#[test]
fn server_test_common_response_tags_include_server_info_and_transport_capabilities() {
    let mut tags = Vec::new();
    NostrServerTransport::append_common_response_tags(
        &mut tags,
        Some(&ServerInfo {
            name: Some("Demo".to_string()),
            ..Default::default()
        }),
        &[Tag::flag("x-demo")],
        EncryptionMode::Optional,
        GiftWrapMode::Optional,
    );
    let rendered: Vec<Vec<String>> = tags.iter().cloned().map(|tag| tag.to_vec()).collect();
    assert!(rendered.iter().any(|tag| tag[0] == tag_names::NAME));
    assert!(rendered
        .iter()
        .any(|tag| tag[0] == tag_names::SUPPORT_ENCRYPTION));
    assert!(rendered.iter().any(|tag| tag[0] == "x-demo"));
}

#[test]
fn server_test_unauthorized_error_response_shape() {
    let response = NostrServerTransport::unauthorized_error_response(&json("1"));
    let JsonRpcMessage::ErrorResponse(response) = response else {
        panic!("expected JSON-RPC error response");
    };
    assert_eq!(response.id, json("1"));
    assert_eq!(response.error.code, -32000);
    assert_eq!(response.error.message, "Unauthorized");
}

// ── Session activity ────────────────────────────────────────

#[test]
fn server_test_client_session_update_activity() {
    let mut session = ClientSession::new(false);
    let first = session.last_activity;
    wait(10);
    session.update_activity();
    assert!(session.last_activity > first);
}
