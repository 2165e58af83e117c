//! Behavior of link intake: prefix validation, duplicate rejection, source
//! read failures, and the returned snapshot.

use yaydl::{try_add, AddLinkError, DownloadState, JobStore, ReadError};

const URL: &str = "https://www.youtube.com/watch?v=X";

#[test]
fn same_url_twice_is_ok_then_already_added() {
    let mut store = JobStore::new();
    let first = try_add(Ok(URL.to_string()), &mut store);
    assert!(first.is_ok());
    let second = try_add(Ok(URL.to_string()), &mut store);
    assert!(matches!(second, Err(AddLinkError::AlreadyAdded)));
    assert_eq!(store.len(), 1);
}

#[test]
fn non_prefixed_candidate_is_rejected_and_store_unchanged() {
    let mut store = JobStore::new();
    try_add(Ok(URL.to_string()), &mut store).unwrap();
    for candidate in [
        "hello",
        "http://www.youtube.com/watch?v=X",
        "https://youtube.com/watch?v=X",
        "www.youtube.com/watch?v=X",
        "",
        " https://www.youtube.com/watch?v=X",
    ] {
        let r = try_add(Ok(candidate.to_string()), &mut store);
        assert!(matches!(r, Err(AddLinkError::NoValidLink)));
        assert_eq!(store.len(), 1);
    }
}

#[test]
fn prefix_alone_is_enough_to_pass_the_filter() {
    let mut store = JobStore::new();
    let r = try_add(Ok("https://www.youtube.com/".to_string()), &mut store);
    assert!(r.is_ok());
}

#[test]
fn read_error_maps_to_clipboard_read() {
    let mut store = JobStore::new();
    let r = try_add(Err(ReadError), &mut store);
    assert!(matches!(r, Err(AddLinkError::ClipboardRead)));
    assert_eq!(store.len(), 0);
}

#[test]
fn accepted_link_returns_url_and_snapshot() {
    let mut store = JobStore::new();
    let (url, snapshot) = try_add(Ok(URL.to_string()), &mut store).unwrap();
    assert_eq!(url, URL);
    assert_eq!(snapshot.len(), 1);
    assert_eq!(snapshot[0].metadata.url, URL);
    assert_eq!(snapshot[0].download_state, DownloadState::Idle);
    assert!(snapshot[0].metadata.id.is_empty());
    assert!(snapshot[0].metadata.title.is_empty());
    assert!(snapshot[0].metadata.duration.is_empty());
    assert!(snapshot[0].metadata.thumbnail.is_empty());
    assert!(snapshot[0].metadata.loading);
}

#[test]
fn new_jobs_go_to_the_front_of_the_snapshot() {
    let mut store = JobStore::new();
    try_add(Ok("https://www.youtube.com/watch?v=1".to_string()), &mut store).unwrap();
    let (_, snapshot) =
        try_add(Ok("https://www.youtube.com/watch?v=2".to_string()), &mut store).unwrap();
    assert_eq!(snapshot.len(), 2);
    assert_eq!(snapshot[0].metadata.url, "https://www.youtube.com/watch?v=2");
    assert_eq!(snapshot[1].metadata.url, "https://www.youtube.com/watch?v=1");
}

#[test]
fn add_link_error_messages() {
    assert_eq!(
        AddLinkError::AlreadyAdded.message(),
        "Video has already been added"
    );
    assert_eq!(
        AddLinkError::NoValidLink.message(),
        "Clipboard doesn't contain a valid link"
    );
    assert_eq!(AddLinkError::ClipboardRead.message(), "Clipboard read error");
}
