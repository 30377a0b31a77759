//! Tests for the in-memory key-value store.

use ferrisdb_storage::kvstore::KeyValueStore;

#[test]
fn test_create_store() {
    let store = KeyValueStore::new();
    assert!(store.is_empty());
    assert_eq!(store.len(), 0);
}

#[test]
fn test_set_and_get() {
    let mut store = KeyValueStore::new();

    // Test basic set and get
    store.set("user:1".to_string(), "Alice".to_string());
    assert_eq!(store.get("user:1"), Some("Alice".to_string()));

    // Test missing key
    assert_eq!(store.get("user:2"), None);

    // Test overwrite
    store.set("user:1".to_string(), "Alice Smith".to_string());
    assert_eq!(store.get("user:1"), Some("Alice Smith".to_string()));
}

#[test]
fn test_multiple_entries() {
    let mut store = KeyValueStore::new();

    store.set("user:1".to_string(), "Alice".to_string());
    store.set("user:2".to_string(), "Bob".to_string());
    store.set("user:3".to_string(), "Charlie".to_string());

    assert_eq!(store.len(), 3);
    assert_eq!(store.get("user:1"), Some("Alice".to_string()));
    assert_eq!(store.get("user:2"), Some("Bob".to_string()));
    assert_eq!(store.get("user:3"), Some("Charlie".to_string()));
}

#[test]
fn overwrite_keeps_store_size() {
    let mut store = KeyValueStore::new();
    store.set("k".to_string(), "v1".to_string());
    store.set("k".to_string(), "v2".to_string());
    assert_eq!(store.len(), 1);
    assert_eq!(store.get("k"), Some("v2".to_string()));
}
