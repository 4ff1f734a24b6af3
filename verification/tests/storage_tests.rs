use slate::storage::{LocalStorage, SessionStorage, StorageError, QuotaManager, StorageQuota, IndexedDB};

#[test]
fn create_storage() {
    let storage = LocalStorage::new("https://example.com".to_string(), 10 * 1024 * 1024);
    assert_eq!(storage.length(), 0);
}

#[test]
fn set_and_get() {
    let mut storage = LocalStorage::new("https://example.com".to_string(), 10 * 1024 * 1024);
    storage.set_item("key1".to_string(), "value1".to_string()).unwrap();
    assert_eq!(storage.get_item("key1"), Some("value1".to_string()));
}

#[test]
fn remove_item() {
    let mut storage = LocalStorage::new("https://example.com".to_string(), 10 * 1024 * 1024);
    storage.set_item("key1".to_string(), "value1".to_string()).unwrap();
    storage.remove_item("key1").unwrap();
    assert_eq!(storage.get_item("key1"), None);
}

#[test]
fn quota_exceeded() {
    let mut storage = LocalStorage::new("https://example.com".to_string(), 100);
    let result = storage.set_item("key".to_string(), "a".repeat(200));
    assert!(matches!(result, Err(StorageError::QuotaExceeded)));
    assert!(storage.get_item("key").is_none());
    assert_eq!(storage.length(), 0);
}

#[test]
fn session_storage_keys_in_order() {
    let mut s = SessionStorage::new("https://a.example".to_string(), 1024);
    s.set_item("b".to_string(), "1".to_string()).unwrap();
    s.set_item("a".to_string(), "2".to_string()).unwrap();
    assert_eq!(s.length(), 2);
    assert_eq!(s.key(0), Some("b".to_string()));
    assert_eq!(s.key(1), Some("a".to_string()));
    assert_eq!(s.key(2), None);
    s.clear();
    assert_eq!(s.length(), 0);
}

#[test]
fn quota_manager_defaults() {
    let q = QuotaManager::new(1000);
    assert_eq!(q.get_quota("https://x.example"), 1000);
    assert!(!q.request_quota("https://x.example", 10));
    assert_eq!(QuotaManager::default().get_quota("o"), 52428800);
    let full = StorageQuota { total: 10, used: 10, available: 0 };
    assert!(full.is_exceeded());
    let roomy = StorageQuota { total: 10, used: 3, available: 7 };
    assert!(!roomy.is_exceeded());
}

#[test]
fn indexed_db_object_stores() {
    let mut db = IndexedDB::new("db".to_string(), 1);
    db.create_object_store("books".to_string(), Some("isbn".to_string()), false);
    assert!(db.object_store("books").is_some());
    assert!(db.object_store("films").is_none());
}

#[test]
fn removing_a_key_keeps_the_order_of_the_others() {
    let mut s = LocalStorage::new("https://example.com".to_string(), 1024);
    for k in ["a", "b", "c"] {
        s.set_item(k.to_string(), "v".to_string()).unwrap();
    }
    s.set_item("a".to_string(), "w".to_string()).unwrap();
    assert_eq!(s.keys(), vec!["a".to_string(), "b".to_string(), "c".to_string()]);
    s.remove_item("b").unwrap();
    assert_eq!(s.key(0), Some("a".to_string()));
    assert_eq!(s.key(1), Some("c".to_string()));
    assert_eq!(s.key(2), None);
    s.clear().unwrap();
    assert!(s.keys().is_empty());
}
