use download_queue::models::QueuedJob;
use download_queue::store::QueueStore;

fn job(id: u64, url: &str) -> QueuedJob {
    QueuedJob {
        id,
        url: url.to_string(),
        quality: "best".to_string(),
        format_selector: "mp4".to_string(),
        subfolder: String::new(),
        title: None,
        username: None,
        password: None,
    }
}

fn count_with_id(store: &QueueStore, id: u64) -> usize {
    store.snapshot().iter().filter(|j| j.id == id).count()
}

#[test]
fn enqueue_leaves_exactly_one_entry_with_the_id() {
    let mut store = QueueStore::new();
    store.append(job(7, "http://example/a"));
    assert_eq!(count_with_id(&store, 7), 1);
    store.append(job(8, "http://example/b"));
    assert_eq!(count_with_id(&store, 7), 1);
    assert_eq!(count_with_id(&store, 8), 1);
}

#[test]
fn removal_leaves_zero_entries_with_the_id_permanently() {
    let mut store = QueueStore::new();
    store.append(job(1, "http://example/a"));
    store.append(job(2, "http://example/b"));
    store.remove_id(1);
    assert_eq!(count_with_id(&store, 1), 0);
    assert!(!store.contains_id(1));
    store.append(job(3, "http://example/c"));
    store.remove_id(2);
    assert_eq!(count_with_id(&store, 1), 0);
    assert!(store.contains_id(3));
}

#[test]
fn removal_preserves_order_of_survivors() {
    let mut store = QueueStore::new();
    store.append(job(1, "http://example/a"));
    store.append(job(2, "http://example/b"));
    store.append(job(3, "http://example/c"));
    store.remove_id(2);
    let ids: Vec<u64> = store.snapshot().iter().map(|j| j.id).collect();
    assert_eq!(ids, vec![1, 3]);
}

#[test]
fn removing_an_absent_id_is_a_noop() {
    let mut store = QueueStore::new();
    store.append(job(1, "http://example/a"));
    store.remove_id(42);
    assert_eq!(store.len(), 1);
    assert!(store.contains_id(1));
}

#[test]
fn mirror_reproduces_snapshot_after_every_mutation() {
    let mut store = QueueStore::new();
    assert_eq!(store.snapshot(), store.mirror_image());
    store.append(job(1, "http://example/a"));
    assert_eq!(store.snapshot(), store.mirror_image());
    store.append(job(2, "http://example/b"));
    assert_eq!(store.snapshot(), store.mirror_image());
    store.remove_id(1);
    assert_eq!(store.snapshot(), store.mirror_image());
    store.remove_id(2);
    assert_eq!(store.snapshot(), store.mirror_image());
    assert_eq!(store.len(), 0);
}

#[test]
fn mirror_keeps_every_field() {
    let mut store = QueueStore::new();
    let original = QueuedJob {
        id: 5,
        url: "http://example/v".to_string(),
        quality: "720p".to_string(),
        format_selector: "mkv".to_string(),
        subfolder: "series".to_string(),
        title: Some("Episode".to_string()),
        username: Some("user".to_string()),
        password: Some("secret".to_string()),
    };
    store.append(original.copy_of());
    let mirrored = &store.mirror_image()[0];
    assert_eq!(*mirrored, original);
}
