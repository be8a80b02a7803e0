//! The stores of client and server.

use contextvm_sdk::transport::client::correlation_store::ClientCorrelationStore;
use contextvm_sdk::transport::server::correlation_store::ServerEventRouteStore;
use contextvm_sdk::transport::server::session_store::SessionStore;
use contextvm_sdk::util::string_map::StringMap;

// ── Pending requests of a client ────────────────────────────────────────────

#[test]
fn remove_nonexistent_is_noop() {
    let mut store = ClientCorrelationStore::new();
    store.remove("nonexistent");
    assert!(!store.contains("nonexistent"));
}

#[test]
fn contains_after_clear() {
    let mut store = ClientCorrelationStore::new();
    store.register("e1".into());
    store.register("e2".into());
    assert!(store.contains("e1"));
    store.clear();
    assert!(!store.contains("e1"));
    assert!(!store.contains("e2"));
}

#[test]
fn register_and_remove_roundtrip() {
    let mut store = ClientCorrelationStore::new();
    store.register("e1".into());
    assert!(store.contains("e1"));
    store.remove("e1");
    assert!(!store.contains("e1"));
}

// ── Routes of a server ──────────────────────────────────────────────────────

#[test]
fn pop_on_empty_returns_none() {
    let mut store = ServerEventRouteStore::new();
    assert!(store.pop("nonexistent").is_none());
}

#[test]
fn get_returns_without_removing() {
    let mut store = ServerEventRouteStore::new();
    store.register("e1".into(), "pk1".into());
    assert_eq!(store.get("e1").as_deref(), Some("pk1"));
    assert_eq!(store.get("e1").as_deref(), Some("pk1"));
}

#[test]
fn pop_removes_entry() {
    let mut store = ServerEventRouteStore::new();
    store.register("e1".into(), "pk1".into());
    assert_eq!(store.pop("e1").as_deref(), Some("pk1"));
    assert!(store.pop("e1").is_none());
}

#[test]
fn remove_for_client_only_removes_matching() {
    let mut store = ServerEventRouteStore::new();
    store.register("e1".into(), "pk1".into());
    store.register("e2".into(), "pk2".into());
    store.register("e3".into(), "pk1".into());

    store.remove_for_client("pk1");

    assert!(store.get("e1").is_none());
    assert!(store.get("e3").is_none());
    assert_eq!(store.get("e2").as_deref(), Some("pk2"));
}

#[test]
fn remove_for_client_noop_when_no_match() {
    let mut store = ServerEventRouteStore::new();
    store.register("e1".into(), "pk1".into());
    store.remove_for_client("pk_other");
    assert_eq!(store.get("e1").as_deref(), Some("pk1"));
}

#[test]
fn clear_empties_store() {
    let mut store = ServerEventRouteStore::new();
    store.register("e1".into(), "pk1".into());
    store.register("e2".into(), "pk2".into());
    store.clear();
    assert!(store.get("e1").is_none());
    assert!(store.get("e2").is_none());
}

#[test]
fn later_route_replaces_earlier() {
    let mut store = ServerEventRouteStore::default();
    store.register("e1".into(), "pk1".into());
    store.register("e1".into(), "pk2".into());
    assert_eq!(store.pop("e1").as_deref(), Some("pk2"));
    assert!(store.get("e1").is_none());
}

// ── Sessions of a server ────────────────────────────────────────────────────

#[test]
fn create_and_retrieve_session() {
    let mut store = SessionStore::new();

    let created = store.get_or_create_session("client-1", true);
    assert!(created);

    let snap = store.get_session("client-1").unwrap();
    assert!(snap.is_encrypted);
    assert!(!snap.is_initialized);
}

#[test]
fn get_or_create_returns_existing() {
    let mut store = SessionStore::new();

    let created = store.get_or_create_session("client-1", false);
    assert!(created);

    let created2 = store.get_or_create_session("client-1", true);
    assert!(!created2);

    // is_encrypted should have been updated.
    let snap = store.get_session("client-1").unwrap();
    assert!(snap.is_encrypted);
}

#[test]
fn mark_initialized() {
    let mut store = SessionStore::new();
    store.get_or_create_session("client-1", false);

    assert!(store.mark_initialized("client-1"));
    let snap = store.get_session("client-1").unwrap();
    assert!(snap.is_initialized);
}

#[test]
fn mark_initialized_unknown_returns_false() {
    let mut store = SessionStore::new();
    assert!(!store.mark_initialized("unknown"));
}

#[test]
fn mark_common_tags_sent_only_where_known() {
    let mut store = SessionStore::default();
    assert!(!store.mark_common_tags_sent("client-1"));
    store.get_or_create_session("client-1", false);
    assert!(!store.get_session("client-1").unwrap().has_sent_common_tags);
    assert!(store.mark_common_tags_sent("client-1"));
    assert!(store.get_session("client-1").unwrap().has_sent_common_tags);
}

#[test]
fn remove_session() {
    let mut store = SessionStore::new();
    store.get_or_create_session("client-1", false);
    assert!(store.remove_session("client-1"));
    assert!(store.get_session("client-1").is_none());
}

#[test]
fn remove_unknown_returns_false() {
    let mut store = SessionStore::new();
    assert!(!store.remove_session("unknown"));
}

#[test]
fn clear_all_sessions() {
    let mut store = SessionStore::new();
    store.get_or_create_session("client-1", false);
    store.get_or_create_session("client-2", true);

    store.clear();

    assert_eq!(store.session_count(), 0);
    assert!(store.get_session("client-1").is_none());
    assert!(store.get_session("client-2").is_none());
}

#[test]
fn get_all_sessions() {
    let mut store = SessionStore::new();
    store.get_or_create_session("client-1", false);
    store.get_or_create_session("client-2", true);

    let all = store.get_all_sessions();
    assert_eq!(all.len(), 2);

    let keys: Vec<&str> = all.iter().map(|(k, _)| k.as_str()).collect();
    assert!(keys.contains(&"client-1"));
    assert!(keys.contains(&"client-2"));
}

// ── The map under them ──────────────────────────────────────────────────────

#[test]
fn string_map_keeps_one_value_per_key() {
    let mut map: StringMap<u64> = StringMap::new();
    assert!(map.is_empty());
    map.insert("a".to_string(), 1);
    map.insert("b".to_string(), 2);
    map.insert("a".to_string(), 3);
    assert_eq!(map.len(), 2);
    assert_eq!(map.get("a"), Some(&3));
    assert_eq!(map.keys(), vec!["a".to_string(), "b".to_string()]);
    assert_eq!(map.remove("a"), Some(3));
    assert_eq!(map.remove("a"), None);
    assert!(map.contains_key("b"));
    assert!(!map.contains_key("a"));
    map.clear();
    assert!(map.is_empty());
}
