//! Behavior of the job store: insertion order, dedup by URL, lookups, state
//! and metadata updates, snapshots and clearing.

use yaydl::{Download, DownloadState, JobStore, Metadata};

fn job(url: &str, id: &str) -> Download {
    Download {
        metadata: Metadata {
            id: id.to_string(),
            url: url.to_string(),
            title: String::new(),
            duration: String::new(),
            thumbnail: String::new(),
            loading: false,
        },
        download_state: DownloadState::Idle,
    }
}

#[test]
fn add_inserts_at_front() {
    let mut store = JobStore::new();
    assert!(store.add(job("https://www.youtube.com/watch?v=a", "a")));
    assert!(store.add(job("https://www.youtube.com/watch?v=b", "b")));
    let jobs = store.list();
    assert_eq!(jobs.len(), 2);
    assert_eq!(jobs[0].metadata.url, "https://www.youtube.com/watch?v=b");
    assert_eq!(jobs[1].metadata.url, "https://www.youtube.com/watch?v=a");
}

#[test]
fn add_rejects_duplicate_url() {
    let mut store = JobStore::new();
    assert!(store.add(job("https://www.youtube.com/watch?v=a", "a")));
    assert!(!store.add(job("https://www.youtube.com/watch?v=a", "other")));
    assert_eq!(store.len(), 1);
}

#[test]
fn find_by_id_or_url_matches_either_key() {
    let mut store = JobStore::new();
    store.add(job("https://www.youtube.com/watch?v=a", "ida"));
    store.add(job("https://www.youtube.com/watch?v=b", "idb"));
    let by_id = store.find_by_id_or_url("ida").expect("found by id");
    assert_eq!(by_id.metadata.url, "https://www.youtube.com/watch?v=a");
    let by_url = store
        .find_by_id_or_url("https://www.youtube.com/watch?v=b")
        .expect("found by url");
    assert_eq!(by_url.metadata.id, "idb");
    assert!(store.find_by_id_or_url("missing").is_none());
}

#[test]
fn update_state_changes_matching_job() {
    let mut store = JobStore::new();
    store.add(job("https://www.youtube.com/watch?v=a", "ida"));
    store.update_state("ida", DownloadState::Loading(45));
    let jobs = store.list();
    assert_eq!(jobs[0].download_state, DownloadState::Loading(45));
}

#[test]
fn update_state_unknown_id_is_noop() {
    let mut store = JobStore::new();
    store.add(job("https://www.youtube.com/watch?v=a", "ida"));
    let before = store.list();
    store.update_state("no-such-id", DownloadState::Finished);
    let after = store.list();
    assert_eq!(before, after);
}

#[test]
fn update_state_on_empty_store_does_not_panic() {
    let mut store = JobStore::new();
    store.update_state("anything", DownloadState::Failure);
    assert_eq!(store.len(), 0);
}

#[test]
fn update_metadata_fills_fields_and_keeps_url() {
    let mut store = JobStore::new();
    store.add(job("https://www.youtube.com/watch?v=a", ""));
    let new_meta = Metadata {
        id: "vid123".to_string(),
        url: "https://sneaky.example/other".to_string(),
        title: "A Title".to_string(),
        duration: "3:41".to_string(),
        thumbnail: "https://img.example/t.webp".to_string(),
        loading: false,
    };
    store.update_metadata("https://www.youtube.com/watch?v=a", new_meta);
    let jobs = store.list();
    assert_eq!(jobs[0].metadata.id, "vid123");
    assert_eq!(jobs[0].metadata.title, "A Title");
    assert_eq!(jobs[0].metadata.duration, "3:41");
    // the job's URL is immutable: the record's URL field does not replace it
    assert_eq!(jobs[0].metadata.url, "https://www.youtube.com/watch?v=a");
}

#[test]
fn update_metadata_unknown_url_is_noop() {
    let mut store = JobStore::new();
    store.add(job("https://www.youtube.com/watch?v=a", "ida"));
    let before = store.list();
    store.update_metadata("https://www.youtube.com/watch?v=zz", Metadata::default());
    assert_eq!(before, store.list());
}

#[test]
fn list_is_a_snapshot_not_a_live_view() {
    let mut store = JobStore::new();
    store.add(job("https://www.youtube.com/watch?v=a", "ida"));
    let snapshot = store.list();
    store.update_state("ida", DownloadState::Finished);
    assert_eq!(snapshot[0].download_state, DownloadState::Idle);
}

#[test]
fn clear_then_list_is_empty() {
    let mut store = JobStore::new();
    store.add(job("https://www.youtube.com/watch?v=a", "a"));
    store.add(job("https://www.youtube.com/watch?v=b", "b"));
    store.add(job("https://www.youtube.com/watch?v=c", "c"));
    store.clear();
    assert!(store.list().is_empty());
    store.clear();
    assert!(store.list().is_empty());
}

#[test]
fn is_wf_accepts_store_built_through_the_api() {
    let mut store = JobStore::new();
    assert!(store.is_wf());
    store.add(job("https://www.youtube.com/watch?v=a", "a"));
    store.add(job("https://www.youtube.com/watch?v=b", "b"));
    assert!(store.is_wf());
}
