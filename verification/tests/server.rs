//! The server transport that keeps routes in a store of their own.

use contextvm_sdk::protocol::constants::tags as tag_names;
use contextvm_sdk::protocol::constants::{EPHEMERAL_GIFT_WRAP_KIND, GIFT_WRAP_KIND};
use contextvm_sdk::protocol::json::Json;
use contextvm_sdk::protocol::nostr::Tag;
use contextvm_sdk::protocol::session::ClientSession;
use contextvm_sdk::protocol::types::{
    CapabilityExclusion, EncryptionMode, GiftWrapMode, JsonRpcMessage, ServerInfo,
};
use contextvm_sdk::transport::server::config::NostrServerTransportConfig;
use contextvm_sdk::transport::server::NostrServerTransport;
use contextvm_sdk::util::string_map::StringMap;
use contextvm_sdk::util::time::Duration;

fn json(text: &str) -> Json {
    Json::from_text(text).expect("valid JSON")
}

fn wait(millis: u128) {
    let start = std::time::Instant::now();
    while start.elapsed().as_millis() < millis {}
}

// ── Session management ──────────────────────────────────────

#[test]
fn mod_test_client_session_creation() {
    let session = ClientSession::new(true);
    assert!(!session.is_initialized);
    assert!(session.is_encrypted);
    assert!(session.pending_requests.is_empty());
    assert!(session.event_to_progress_token.is_empty());
}

#[test]
fn mod_test_cleanup_sessions_removes_expired() {
    let mut transport = NostrServerTransport::new(NostrServerTransportConfig::default());

    // Insert a session with an old activity time
    let mut session = ClientSession::new(false);
    session.pending_requests.insert("evt1".to_string(), json("1"));
    transport.sessions.sessions.insert("pubkey1".to_string(), session);
    transport
        .event_routes
        .register("evt1".to_string(), "pubkey1".to_string());

    // With a long timeout, nothing should be cleaned
    let cleaned = transport.cleanup_sessions(Duration::from_secs(300));
    assert_eq!(cleaned, 0);
    assert_eq!(transport.sessions.session_count(), 1);

    // With zero timeout, it should be cleaned
    wait(5);
    let cleaned = transport.cleanup_sessions(Duration::from_millis(1));
    assert_eq!(cleaned, 1);
    assert_eq!(transport.sessions.session_count(), 0);
    assert!(transport.event_routes.pop("evt1").is_none());
}

#[test]
fn mod_test_cleanup_preserves_active_sessions() {
    let mut transport = NostrServerTransport::new(NostrServerTransportConfig::default());
    transport.sessions.get_or_create_session("active", false);

    let cleaned = transport.cleanup_sessions(Duration::from_secs(300));
    assert_eq!(cleaned, 0);
    assert_eq!(transport.sessions.session_count(), 1);
}

#[test]
fn only_sessions_beyond_the_limit_end() {
    let mut transport = NostrServerTransport::new(NostrServerTransportConfig::default());
    for client in ["old", "edge", "young"] {
        let mut session = ClientSession::new(false);
        session
            .pending_requests
            .insert(format!("evt-{client}"), json("1"));
        session
            .event_to_progress_token
            .insert(format!("reporting-{client}"), "t".to_string());
        transport.sessions.sessions.insert(client.to_string(), session);
        for id in [format!("evt-{client}"), format!("reporting-{client}")] {
            transport.event_routes.register(id.clone(), client.to_string());
            transport.request_wrap_kinds.insert(id, None);
        }
    }
    let mut idle: StringMap<Duration> = StringMap::new();
    idle.insert("old".to_string(), Duration { secs: 10, nanos: 1 });
    idle.insert("edge".to_string(), Duration { secs: 10, nanos: 0 });
    idle.insert("young".to_string(), Duration { secs: 9, nanos: 999_999_999 });
    assert_eq!(transport.expire_sessions(&idle, Duration::from_secs(10)), 1);
    assert!(transport.sessions.get_session("old").is_none());
    assert!(transport.sessions.get_session("edge").is_some());
    assert!(transport.sessions.get_session("young").is_some());
    assert!(transport.event_routes.get("evt-old").is_none());
    assert!(transport.event_routes.get("reporting-old").is_none());
    assert!(!transport.request_wrap_kinds.contains_key("evt-old"));
    assert!(transport.event_routes.get("evt-edge").is_some());
    assert!(transport.request_wrap_kinds.contains_key("reporting-young"));
}

// ── Request ID correlation ──────────────────────────────────

#[test]
fn mod_test_pending_request_tracking() {
    let mut session = ClientSession::new(false);
    session
        .pending_requests
        .insert("event_abc".to_string(), json("42"));
    assert_eq!(session.pending_requests.get("event_abc"), Some(&json("42")));
}

#[test]
fn mod_test_progress_token_tracking() {
    let mut session = ClientSession::new(false);
    session
        .event_to_progress_token
        .insert("evt1".to_string(), "token1".to_string());
    session
        .pending_requests
        .insert("token1".to_string(), json("\"evt1\""));
    assert_eq!(
        session.event_to_progress_token.get("evt1"),
        Some(&"token1".to_string())
    );
}

// ── Config defaults ───────────────────────────────────────────

#[test]
fn mod_test_encryption_mode_default() {
    let config = NostrServerTransportConfig::default();
    assert_eq!(config.encryption_mode, EncryptionMode::Optional);
}

#[test]
fn mod_test_config_defaults() {
    let config = NostrServerTransportConfig::default();
    assert_eq!(config.relay_urls, vec!["wss://relay.damus.io".to_string()]);
    assert_eq!(config.encryption_mode, EncryptionMode::Optional);
    assert_eq!(config.gift_wrap_mode, GiftWrapMode::Optional);
    assert!(!config.is_announced_server);
    assert!(config.allowed_public_keys.is_empty());
    assert!(config.excluded_capabilities.is_empty());
    assert_eq!(config.cleanup_interval, Duration::from_secs(60));
    assert_eq!(config.session_timeout, Duration::from_secs(300));
    assert!(config.server_info.is_none());
    assert!(config.log_file_path.is_none());
}

// ── CEP-19 outbound gift-wrap kind selection ────────────────

#[test]
fn test_select_outbound_persistent_mode() {
    assert_eq!(
        NostrServerTransport::select_outbound_gift_wrap_kind(
            GiftWrapMode::Persistent,
            true,
            Some(EPHEMERAL_GIFT_WRAP_KIND),
        ),
        Some(GIFT_WRAP_KIND)
    );
}

#[test]
fn test_select_outbound_ephemeral_mode() {
    assert_eq!(
        NostrServerTransport::select_outbound_gift_wrap_kind(
            GiftWrapMode::Ephemeral,
            true,
            None,
        ),
        Some(EPHEMERAL_GIFT_WRAP_KIND)
    );
}

#[test]
fn test_select_outbound_optional_mirrors_ephemeral() {
    assert_eq!(
        NostrServerTransport::select_outbound_gift_wrap_kind(
            GiftWrapMode::Optional,
            true,
            Some(EPHEMERAL_GIFT_WRAP_KIND),
        ),
        Some(EPHEMERAL_GIFT_WRAP_KIND)
    );
}

#[test]
fn test_select_outbound_optional_mirrors_persistent() {
    assert_eq!(
        NostrServerTransport::select_outbound_gift_wrap_kind(
            GiftWrapMode::Optional,
            true,
            Some(GIFT_WRAP_KIND),
        ),
        Some(GIFT_WRAP_KIND)
    );
}

#[test]
fn test_select_outbound_optional_defaults_to_persistent_when_no_mirror() {
    assert_eq!(
        NostrServerTransport::select_outbound_gift_wrap_kind(
            GiftWrapMode::Optional,
            true,
            None,
        ),
        Some(GIFT_WRAP_KIND)
    );
}

#[test]
fn test_select_outbound_unencrypted_returns_none() {
    assert_eq!(
        NostrServerTransport::select_outbound_gift_wrap_kind(
            GiftWrapMode::Ephemeral,
            false,
            None,
        ),
        None
    );
}

#[test]
fn test_select_notification_optional_no_correlation() {
    // Optional mode with no correlated request uses known peer support.
    assert_eq!(
        NostrServerTransport::select_outbound_notification_gift_wrap_kind(
            GiftWrapMode::Optional,
            true,
            None,
            false,
        ),
        Some(GIFT_WRAP_KIND)
    );
    assert_eq!(
        NostrServerTransport::select_outbound_notification_gift_wrap_kind(
            GiftWrapMode::Optional,
            true,
            None,
            true,
        ),
        Some(EPHEMERAL_GIFT_WRAP_KIND)
    );
}

#[test]
fn test_select_notification_ephemeral_mode() {
    assert_eq!(
        NostrServerTransport::select_outbound_notification_gift_wrap_kind(
            GiftWrapMode::Ephemeral,
            true,
            None,
            false,
        ),
        Some(EPHEMERAL_GIFT_WRAP_KIND)
    );
}

// ── Authorization (is_capability_excluded) ──────────────────

#[test]
fn mod_test_initialize_always_excluded() {
    assert!(NostrServerTransport::is_capability_excluded(
        &[],
        "initialize",
        None
    ));
    assert!(NostrServerTransport::is_capability_excluded(
        &[],
        "notifications/initialized",
        None
    ));
}

#[test]
fn mod_test_method_excluded_without_name() {
    let exclusions = vec![CapabilityExclusion {
        method: "tools/list".to_string(),
        name: None,
    }];
    assert!(NostrServerTransport::is_capability_excluded(
        &exclusions,
        "tools/list",
        None
    ));
    assert!(NostrServerTransport::is_capability_excluded(
        &exclusions,
        "tools/list",
        Some("anything")
    ));
}

#[test]
fn mod_test_method_excluded_with_name() {
    let exclusions = vec![CapabilityExclusion {
        method: "tools/call".to_string(),
        name: Some("get_weather".to_string()),
    }];
    assert!(NostrServerTransport::is_capability_excluded(
        &exclusions,
        "tools/call",
        Some("get_weather")
    ));
    assert!(!NostrServerTransport::is_capability_excluded(
        &exclusions,
        "tools/call",
        Some("other_tool")
    ));
    assert!(!NostrServerTransport::is_capability_excluded(
        &exclusions,
        "tools/call",
        None
    ));
}

#[test]
fn mod_test_non_excluded_method() {
    let exclusions = vec![CapabilityExclusion {
        method: "tools/list".to_string(),
        name: None,
    }];
    assert!(!NostrServerTransport::is_capability_excluded(
        &exclusions,
        "tools/call",
        None
    ));
    assert!(!NostrServerTransport::is_capability_excluded(
        &exclusions,
        "resources/list",
        None
    ));
}

#[test]
fn mod_test_empty_exclusions_non_init_method() {
    assert!(!NostrServerTransport::is_capability_excluded(
        &[],
        "tools/list",
        None
    ));
    assert!(!NostrServerTransport::is_capability_excluded(
        &[],
        "tools/call",
        Some("x")
    ));
}

// ── Tags ────────────────────────────────────────────────────

#[test]
fn mod_test_append_transport_capability_tags_respects_gift_wrap_mode() {
    let mut tags = Vec::new();
    NostrServerTransport::append_transport_capability_tags(
        &mut tags,
        EncryptionMode::Optional,
        GiftWrapMode::Persistent,
    );
    let rendered: Vec<Vec<String>> = tags.iter().cloned().map(|t| t.to_vec()).collect();
    assert!(rendered
        .iter()
        .any(|t| t[0] == tag_names::SUPPORT_ENCRYPTION));
    assert!(!rendered
        .iter()
        .any(|t| { t[0] == tag_names::SUPPORT_ENCRYPTION_EPHEMERAL }));

    let mut tags = Vec::new();
    NostrServerTransport::append_transport_capability_tags(
        &mut tags,
        EncryptionMode::Optional,
        GiftWrapMode::Optional,
    );
    let rendered: Vec<Vec<String>> = tags.iter().cloned().map(|t| t.to_vec()).collect();
    assert!(rendered
        .iter()
        .any(|t| { t[0] == tag_names::SUPPORT_ENCRYPTION_EPHEMERAL }));
}

#[test]
fn mod_test_common_response_tags_include_server_info_and_transport_capabilities() {
    let mut tags = Vec::new();
    NostrServerTransport::append_common_response_tags(
        &mut tags,
        Some(&ServerInfo {
            name: Some("Demo".to_string()),
            ..Default::default()
        }),
        &[Tag::flag("x-demo")],
        EncryptionMode::Optional,
        GiftWrapMode::Optional,
    );
    let rendered: Vec<Vec<String>> = tags.iter().cloned().map(|tag| tag.to_vec()).collect();
    assert!(rendered.iter().any(|tag| tag[0] == tag_names::NAME));
    assert!(rendered
        .iter()
        .any(|tag| tag[0] == tag_names::SUPPORT_ENCRYPTION));
    assert!(rendered.iter().any(|tag| tag[0] == "x-demo"));
}

#[test]
fn mod_test_unauthorized_error_response_shape() {
    let response = NostrServerTransport::unauthorized_error_response(&json("1"));
    let JsonRpcMessage::ErrorResponse(response) = response else {
        panic!("expected JSON-RPC error response");
    };
    assert_eq!(response.id, json("1"));
    assert_eq!(response.error.code, -32000);
    assert_eq!(response.error.message, "Unauthorized");
}

// ── Session activity ────────────────────────────────────────

#[test]
fn mod_test_client_session_update_activity() {
    let mut session = ClientSession::new(false);
    let first = session.last_activity;
    wait(10);
    session.update_activity();
    assert!(session.last_activity > first);
}
