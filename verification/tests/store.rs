use clipboard_history::{ClipboardEntry, HistoryStore, CAPACITY};

fn entry(content: &str, timestamp: &str) -> ClipboardEntry {
    ClipboardEntry { content: content.to_string(), timestamp: timestamp.to_string() }
}

#[test]
fn new_store_is_empty() {
    let store = HistoryStore::new();
    assert_eq!(store.len(), 0);
    assert!(store.snapshot().is_empty());
}

#[test]
fn append_grows_until_capacity() {
    let mut store = HistoryStore::new();
    for i in 0..CAPACITY {
        store.append(entry(&format!("c{}", i), "2024-01-01 00:00:00"));
        assert_eq!(store.len(), i + 1);
    }
    for i in 0..50 {
        store.append(entry(&format!("extra{}", i), "2024-01-01 00:00:00"));
        assert_eq!(store.len(), CAPACITY);
    }
}

#[test]
fn store_keeps_last_hundred_oldest_first() {
    let mut store = HistoryStore::new();
    for i in 0..150 {
        store.append(entry(&format!("c{}", i), "2024-01-01 00:00:00"));
    }
    let snap = store.snapshot();
    assert_eq!(snap.len(), 100);
    assert_eq!(snap[0].content, "c50");
    assert_eq!(snap[99].content, "c149");
    for (k, e) in snap.iter().enumerate() {
        assert_eq!(e.content, format!("c{}", 50 + k));
    }
}

#[test]
fn order_is_preserved() {
    let mut store = HistoryStore::new();
    store.append(entry("first", "2024-01-01 00:00:01"));
    store.append(entry("second", "2024-01-01 00:00:02"));
    store.append(entry("third", "2024-01-01 00:00:03"));
    let snap = store.snapshot();
    assert_eq!(snap.len(), 3);
    assert_eq!(snap[0].content, "first");
    assert_eq!(snap[1].content, "second");
    assert_eq!(snap[2].content, "third");
    assert_eq!(snap[0].timestamp, "2024-01-01 00:00:01");
    assert_eq!(snap[2].timestamp, "2024-01-01 00:00:03");
}

#[test]
fn eviction_drops_exactly_the_oldest() {
    let mut store = HistoryStore::new();
    for i in 0..CAPACITY {
        store.append(entry(&format!("c{}", i), "2024-01-01 00:00:00"));
    }
    let before = store.snapshot();
    assert_eq!(before.len(), 100);
    let previously_second = before[1].content.clone();

    store.append(entry("newest", "2024-01-02 00:00:00"));
    let after = store.snapshot();
    assert_eq!(after.len(), 100);
    assert_eq!(after[0].content, previously_second);
    assert_eq!(after[0].content, "c1");
    assert_eq!(after[99].content, "newest");
    for k in 0..99 {
        assert_eq!(after[k].content, before[k + 1].content);
    }
}

#[test]
fn snapshot_is_an_independent_copy() {
    let mut store = HistoryStore::new();
    store.append(entry("a", "2024-01-01 00:00:00"));
    let snap = store.snapshot();
    store.append(entry("b", "2024-01-01 00:00:01"));
    assert_eq!(snap.len(), 1);
    assert_eq!(snap[0].content, "a");
    assert_eq!(store.len(), 2);
}
