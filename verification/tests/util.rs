//! Logging, texts, keys, and the lifecycles of gateway and proxy.

use contextvm_sdk::gateway::{GatewayConfig, NostrMCPGateway};
use contextvm_sdk::protocol::error::Error;
use contextvm_sdk::protocol::nostr::{PublicKey, Tag};
use contextvm_sdk::protocol::types::ServerInfo;
use contextvm_sdk::proxy::{NostrMCPProxy, ProxyConfig};
use contextvm_sdk::signer;
use contextvm_sdk::transport::base::{BaseTransport, StartAction, StartEvent};
use contextvm_sdk::transport::client::NostrClientTransportConfig;
use contextvm_sdk::transport::server::config::NostrServerTransportConfig;
use contextvm_sdk::transport::server::NostrServerTransport;
use contextvm_sdk::protocol::json::Json;
use contextvm_sdk::protocol::types::EncryptionMode;
use contextvm_sdk::util::text::{contains_subtext, decimal, trim};
use contextvm_sdk::util::time::Duration;
use contextvm_sdk::util::tracing_setup::{
    format_event, normalize_log_file_path, subscriber_installed, unix_timestamp, LogLevel,
    MessageVisitor,
};

// ── Logging ─────────────────────────────────────────────────────────────────

#[test]
fn log_path_is_trimmed() {
    assert_eq!(normalize_log_file_path(None), None);
    assert_eq!(normalize_log_file_path(Some("")), None);
    assert_eq!(normalize_log_file_path(Some(" \t\u{3000}\n")), None);
    assert_eq!(
        normalize_log_file_path(Some("  logs/my file.txt\u{a0}")),
        Some("logs/my file.txt".to_string())
    );
}

#[test]
fn trim_agrees_with_the_standard_library() {
    for code in 0..0x3100u32 {
        let Some(c) = char::from_u32(code) else {
            continue;
        };
        let text = format!("{c}a{c}{c}");
        assert_eq!(trim(&text), text.trim());
    }
}

#[test]
fn subscriber_of_others_is_no_failure() {
    assert!(subscriber_installed(Ok(())).is_ok());
    let set = "a global default trace dispatcher has already been set";
    assert!(subscriber_installed(Err(set.to_string())).is_ok());
    let error = subscriber_installed(Err("no".to_string())).unwrap_err();
    assert_eq!(error.reason(), "failed to initialize tracing subscriber: no");
}

#[test]
fn log_line_has_all_fields() {
    let mut visitor = MessageVisitor::default();
    visitor.record_field("count", "3".to_string());
    visitor.record_field("message", "hello".to_string());
    visitor.record_field("key", "v w".to_string());
    assert_eq!(
        format_event("12.034", LogLevel::Warn, "contextvm_sdk", &visitor),
        "12.034:warn::contextvm_sdk:hello count=3 key=v w\n"
    );
    let empty = MessageVisitor::default();
    assert_eq!(format_event("0.000", LogLevel::Error, "t", &empty), "0.000:error::t:\n");
}

#[test]
fn timestamp_has_three_decimals() {
    assert_eq!(unix_timestamp(0, 0), "0.000");
    assert_eq!(unix_timestamp(1700000000, 7), "1700000000.007");
    assert_eq!(unix_timestamp(10, 42), "10.042");
    assert_eq!(unix_timestamp(10, 999), "10.999");
}

#[test]
fn texts_and_numbers() {
    assert_eq!(decimal(0), "0");
    assert_eq!(decimal(11316), "11316");
    assert_eq!(decimal(u64::MAX), "18446744073709551615");
    assert!(contains_subtext("abc", ""));
    assert!(contains_subtext("äbc", "bc"));
    assert!(!contains_subtext("abc", "abd"));
    assert!(!contains_subtext("", "a"));
}

#[test]
fn spans_are_compared_exactly() {
    assert!(Duration { secs: 1, nanos: 1 }.exceeds(Duration::from_secs(1)));
    assert!(!Duration::from_secs(1).exceeds(Duration::from_secs(1)));
    assert!(!Duration::from_millis(999).exceeds(Duration::from_secs(1)));
    assert!(Duration::from_secs(u64::MAX).exceeds(Duration::from_millis(u64::MAX)));
    assert_eq!(Duration::from_millis(1500), Duration { secs: 1, nanos: 500_000_000 });
}

// ── Keys ────────────────────────────────────────────────────────────────────

#[test]
fn keys_are_read_from_either_form() {
    let keys = nostr_sdk::Keys::generate();
    let from_hex = match signer::from_sk(&keys.secret_key().to_secret_hex()) {
        Ok(keys) => keys,
        Err(error) => panic!("{}", error.reason()),
    };
    assert_eq!(from_hex.public_key().to_hex(), keys.public_key().to_hex());
    let text = nostr_sdk::ToBech32::to_bech32(keys.secret_key()).unwrap();
    let from_bech32 = match signer::from_sk(&text) {
        Ok(keys) => keys,
        Err(error) => panic!("{}", error.reason()),
    };
    assert_eq!(from_bech32.secret_hex(), from_hex.secret_hex());
    let error = match signer::from_sk("nonsense") {
        Ok(_) => panic!("nonsense is no key"),
        Err(error) => error,
    };
    assert_eq!(
        error.reason(),
        nostr_sdk::Keys::parse("nonsense").unwrap_err().to_string()
    );
}

#[test]
fn generated_keys_are_read_back() {
    let keys = signer::generate();
    let again = match signer::from_sk(keys.secret_hex()) {
        Ok(keys) => keys,
        Err(error) => panic!("{}", error.reason()),
    };
    assert_eq!(again.public_key().to_hex(), keys.public_key().to_hex());
    assert_eq!(again.secret_hex(), keys.secret_hex());
    assert!(!keys.public_key().same(signer::generate().public_key()));
}

// ── Lifecycles ──────────────────────────────────────────────────────────────

fn failure(action: StartAction) -> String {
    match action {
        StartAction::Fail(error) => error.reason().to_string(),
        _ => panic!("expected a failure"),
    }
}

#[test]
fn transport_starts_step_by_step() {
    let mut base = BaseTransport { encryption_mode: EncryptionMode::Optional, is_connected: false };
    assert!(matches!(base.start(StartEvent::Begin), StartAction::Connect));
    let refused = StartEvent::Connected(Err(Error::Transport("no relay".to_string())));
    assert_eq!(failure(base.start(refused)), "no relay");
    assert!(!base.is_connected);
    assert!(matches!(base.start(StartEvent::Connected(Ok(()))), StartAction::FetchKey));
    assert!(base.is_connected);
    assert!(matches!(base.start(StartEvent::Begin), StartAction::FetchKey));
    let key = PublicKey::from_hex(&"ab".repeat(32)).unwrap();
    match base.start(StartEvent::KeyFetched(Ok(key))) {
        StartAction::Subscribe(subscription) => {
            assert_eq!(subscription.kinds, vec![25910, 1059, 21059]);
            assert_eq!(subscription.recipient.to_hex(), "ab".repeat(32));
        }
        _ => panic!("expected a subscription"),
    }
    let no_key = StartEvent::KeyFetched(Err(Error::Other("no signer".to_string())));
    assert_eq!(failure(base.start(no_key)), "no signer");
    assert!(matches!(base.start(StartEvent::Subscribed(Ok(()))), StartAction::Run));
    let refused = StartEvent::Subscribed(Err(Error::Transport("closed".to_string())));
    assert_eq!(failure(base.start(refused)), "closed");
}

#[test]
fn connection_is_made_and_ended_once() {
    let mut base = BaseTransport { encryption_mode: EncryptionMode::Optional, is_connected: false };
    assert!(base.disconnect(Err(Error::Other("unasked".to_string()))).is_ok());
    assert!(base.connect(Err(Error::Transport("no".to_string()))).is_err());
    assert!(base.connect(Ok(())).is_ok());
    assert!(base.connect(Err(Error::Other("unasked".to_string()))).is_ok());
    assert!(base.disconnect(Err(Error::Transport("no".to_string()))).is_err());
    assert!(base.is_connected);
    assert!(base.disconnect(Ok(())).is_ok());
    assert!(!base.is_connected);
}

#[test]
fn announcements_are_never_encrypted() {
    for (mode, plain, answering_open, answering_encrypted) in [
        (EncryptionMode::Disabled, false, false, false),
        (EncryptionMode::Optional, true, false, true),
        (EncryptionMode::Required, true, true, true),
    ] {
        let base = BaseTransport { encryption_mode: mode, is_connected: true };
        for kind in 11316..=11320 {
            assert!(!base.should_encrypt(kind, Some(true)));
        }
        assert_eq!(base.should_encrypt(25910, None), plain);
        assert_eq!(base.should_encrypt(25910, Some(false)), answering_open);
        assert_eq!(base.should_encrypt(25910, Some(true)), answering_encrypted);
    }
}

#[test]
fn base_reads_valid_messages_only() {
    let base = BaseTransport { encryption_mode: EncryptionMode::Optional, is_connected: false };
    assert!(base.convert_event_to_mcp(r#"{"jsonrpc":"2.0","method":"m"}"#).is_some());
    assert!(base.convert_event_to_mcp(r#"{"jsonrpc":"1.0","method":"m"}"#).is_none());
}

#[test]
fn gateway_runs_once_at_a_time() {
    let mut gateway = NostrMCPGateway::new(GatewayConfig {
        nostr_config: NostrServerTransportConfig::default(),
    });
    assert!(!gateway.is_active());
    assert!(gateway.stop(Err(Error::Other("unasked".to_string()))).is_ok());
    assert!(matches!(gateway.start(StartEvent::Begin), StartAction::Connect));
    assert!(matches!(gateway.start(StartEvent::Connected(Ok(()))), StartAction::FetchKey));
    assert!(!gateway.is_active());
    assert!(matches!(gateway.start(StartEvent::Subscribed(Ok(()))), StartAction::Run));
    assert!(gateway.is_active());
    assert_eq!(failure(gateway.start(StartEvent::Begin)), "Gateway already running");
    assert!(gateway.stop(Err(Error::Transport("busy".to_string()))).is_err());
    assert!(gateway.is_active());
    assert!(gateway.stop(Ok(())).is_ok());
    assert!(!gateway.is_active());
    // The receiver was taken by the first start.
    assert_eq!(
        failure(gateway.start(StartEvent::Subscribed(Ok(())))),
        "Message receiver already taken"
    );
    assert!(gateway.is_active());
    assert_eq!(
        gateway.announce().unwrap_err().reason(),
        "No server info configured"
    );
}

#[test]
fn proxy_runs_once_at_a_time() {
    let mut proxy = match NostrMCPProxy::new(ProxyConfig {
        nostr_config: NostrClientTransportConfig {
            server_pubkey: "ab".repeat(32),
            ..Default::default()
        },
    }) {
        Ok(proxy) => proxy,
        Err(error) => panic!("{}", error.reason()),
    };
    assert!(!proxy.is_active());
    assert!(matches!(proxy.start(StartEvent::Begin), StartAction::Connect));
    assert!(matches!(proxy.start(StartEvent::Connected(Ok(()))), StartAction::FetchKey));
    assert!(matches!(proxy.start(StartEvent::Subscribed(Ok(()))), StartAction::Run));
    assert!(proxy.is_active());
    assert_eq!(failure(proxy.start(StartEvent::Begin)), "Proxy already running");
    assert!(proxy.stop(Ok(())).is_ok());
    assert!(!proxy.is_active());
    assert_eq!(
        failure(proxy.start(StartEvent::Subscribed(Ok(())))),
        "Message receiver already taken"
    );
    let refused = NostrMCPProxy::new(ProxyConfig {
        nostr_config: NostrClientTransportConfig::default(),
    });
    assert!(refused.is_err());
}

// ── Announcements ───────────────────────────────────────────────────────────

fn announcing_server() -> NostrServerTransport {
    let mut server = NostrServerTransport::new(NostrServerTransportConfig {
        server_info: Some(ServerInfo {
            name: Some("Demo \"one\"".to_string()),
            version: Some("1.2".to_string()),
            picture: Some("https://example.org/p.png".to_string()),
            website: None,
            about: Some("about".to_string()),
        }),
        ..Default::default()
    });
    server.set_announcement_extra_tags(vec![Tag::flag("x-demo")]);
    server.set_announcement_pricing_tags(vec![Tag::custom("cap", "tool:demo")]);
    server
}

fn rendered(tags: &[Tag]) -> Vec<Vec<String>> {
    tags.iter().map(|tag| tag.to_vec()).collect()
}

#[test]
fn announcement_describes_the_server() {
    let template = announcing_server().announce().unwrap();
    assert_eq!(template.kind, 11316);
    assert_eq!(
        template.content,
        r#"{"name":"Demo \"one\"","version":"1.2","picture":"https://example.org/p.png","about":"about"}"#
    );
    let expected: Vec<Vec<String>> = [
        vec!["name", "Demo \"one\""],
        vec!["about", "about"],
        vec!["picture", "https://example.org/p.png"],
        vec!["support_encryption"],
        vec!["support_encryption_ephemeral"],
        vec!["x-demo"],
        vec!["cap", "tool:demo"],
    ]
    .iter()
    .map(|tag| tag.iter().map(|item| item.to_string()).collect())
    .collect();
    assert_eq!(rendered(&template.tags), expected);
}

#[test]
fn lists_carry_the_pricing_tags() {
    let server = announcing_server();
    let items = || vec![Json::from_text(r#"{"name":"t"}"#).unwrap()];
    for (template, kind, content) in [
        (server.publish_tools(items()), 11317, r#"{"tools":[{"name":"t"}]}"#),
        (server.publish_resources(items()), 11318, r#"{"resources":[{"name":"t"}]}"#),
        (
            server.publish_resource_templates(items()),
            11319,
            r#"{"resourceTemplates":[{"name":"t"}]}"#,
        ),
        (server.publish_prompts(Vec::new()), 11320, r#"{"prompts":[]}"#),
    ] {
        assert_eq!(template.kind, kind);
        assert_eq!(template.content, content);
        assert_eq!(
            rendered(&template.tags),
            vec![vec!["cap".to_string(), "tool:demo".to_string()]]
        );
    }
}

#[test]
fn every_announcement_kind_is_deleted() {
    let templates = announcing_server().delete_announcements("gone");
    let kinds: Vec<Vec<Vec<String>>> = templates
        .iter()
        .map(|template| rendered(&template.tags))
        .collect();
    assert!(templates.iter().all(|t| t.kind == 5 && t.content == "gone"));
    let expected: Vec<Vec<Vec<String>>> = ["11316", "11317", "11318", "11319", "11320"]
        .iter()
        .map(|kind| vec![vec!["k".to_string(), kind.to_string()]])
        .collect();
    assert_eq!(kinds, expected);
}
