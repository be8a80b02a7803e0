//! Gift wraps that come more than once.
//!
//! Client and server remember the ids of the gift wraps that they opened, and
//! skip one that comes again before it is decrypted.

use contextvm_sdk::protocol::constants::DEFAULT_LRU_SIZE;
use contextvm_sdk::transport::dedup::SeenGiftWraps;

/// A memory with the room that both transports have.
fn new_dedup_cache() -> SeenGiftWraps {
    SeenGiftWraps::new(DEFAULT_LRU_SIZE)
}

fn event_id_from_byte(b: u8) -> String {
    format!("{b:02x}").repeat(32)
}

// ── Gift-wrap kind 1059 dedup ─────────────────────────────────────────────────

#[test]
fn client_dedup_skips_duplicate_outer_gift_wrap_id() {
    let mut cache = new_dedup_cache();
    let outer_id = event_id_from_byte(0x01);

    // First delivery: not yet seen, decrypt succeeds, insert into cache.
    assert!(
        !cache.contains(&outer_id),
        "first delivery must not be in cache yet"
    );
    cache.put(outer_id.clone());

    // Second delivery: same outer id is already cached, skip before decrypt.
    assert!(
        cache.contains(&outer_id),
        "second delivery of the same outer id must be rejected"
    );
}

#[test]
fn client_dedup_ephemeral_gift_wrap_skips_duplicate() {
    let mut cache = new_dedup_cache();
    let ephemeral_outer_id = event_id_from_byte(0xE1);

    // First delivery of an ephemeral gift-wrap (kind 21059).
    assert!(
        !cache.contains(&ephemeral_outer_id),
        "first delivery must not be in cache yet"
    );
    cache.put(ephemeral_outer_id.clone());

    // Second delivery: same outer id is already cached, skip before decrypt.
    assert!(
        cache.contains(&ephemeral_outer_id),
        "second delivery of the same ephemeral outer id must be rejected"
    );
}

// ── Server dedup ──────────────────────────────────────────────────────────────

#[test]
fn server_dedup_ephemeral_gift_wrap_skips_duplicate() {
    let mut cache = new_dedup_cache();
    let ephemeral_outer_id = event_id_from_byte(0xE2);

    // First delivery of an ephemeral gift-wrap (kind 21059).
    assert!(
        !cache.contains(&ephemeral_outer_id),
        "first delivery must not be in cache yet"
    );
    cache.put(ephemeral_outer_id.clone());

    // Second delivery: same outer id is already cached, skip before decrypt.
    assert!(
        cache.contains(&ephemeral_outer_id),
        "second delivery of the same ephemeral outer id must be rejected"
    );
}

#[test]
fn server_dedup_lru_evicts_oldest_when_capacity_reached() {
    let capacity = 3;
    let mut cache = SeenGiftWraps::new(capacity);

    let id_0 = event_id_from_byte(0x00);
    let id_1 = event_id_from_byte(0x01);
    let id_2 = event_id_from_byte(0x02);
    let id_3 = event_id_from_byte(0x03);

    cache.put(id_0.clone());
    cache.put(id_1.clone());
    cache.put(id_2.clone());

    // Cache is at capacity (3). Inserting a fourth must evict the oldest (id_0).
    cache.put(id_3.clone());

    assert!(
        !cache.contains(&id_0),
        "oldest entry must be evicted when capacity is exceeded"
    );
    assert!(cache.contains(&id_1), "second entry must still be present");
    assert!(cache.contains(&id_2), "third entry must still be present");
    assert!(
        cache.contains(&id_3),
        "newly inserted entry must be present"
    );
}

#[test]
fn id_that_comes_again_is_the_last_to_go() {
    let mut cache = SeenGiftWraps::new(2);
    cache.put("a".to_string());
    cache.put("b".to_string());
    cache.put("a".to_string());
    cache.put("c".to_string());
    assert!(cache.contains("a"));
    assert!(!cache.contains("b"));
    assert!(cache.contains("c"));
}

#[test]
fn looking_an_id_up_does_not_keep_it() {
    let mut cache = SeenGiftWraps::new(2);
    cache.put("a".to_string());
    cache.put("b".to_string());
    assert!(cache.contains("a"));
    cache.put("c".to_string());
    assert!(!cache.contains("a"));
}
