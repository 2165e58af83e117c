//! Link intake: validates a candidate URL from the clipboard (or another
//! source), rejects duplicates and malformed input, and creates the new job
//! in the store.

use vstd::prelude::*;

use crate::errors::AddLinkError;
use crate::store::{contains_url, JobStore};
use crate::text::{starts_with, str_starts_with};
use crate::types::{empty_metadata, Download, DownloadState, DownloadView, Metadata, MetadataView};

verus! {

/// The source collaborator could not be read (for example, the clipboard was
/// unavailable).
pub struct ReadError;

/// A candidate is accepted when it begins with the domain's canonical URL
/// prefix.  This is a deliberately permissive fast filter, not a URL parser;
/// prefixed but malformed links are caught later by the metadata fetch.
pub open spec fn valid_link(s: Seq<char>) -> bool {
    starts_with(s, "https://www.youtube.com/"@)
}

/// The job a freshly accepted link creates: metadata empty but for the URL,
/// marked loading while the fetch is under way, and state `Idle`.
pub open spec fn new_job(url: Seq<char>) -> DownloadView {
    DownloadView {
        metadata: MetadataView { url: url, loading: true, ..empty_metadata() },
        download_state: DownloadState::Idle,
    }
}

/// Validates a candidate link and, when it is new, inserts its job at the
/// front of the store, returning the URL and a snapshot of the store for the
/// caller to render.
pub fn try_add(candidate: Result<String, ReadError>, store: &mut JobStore) -> (r: Result<
    (String, Vec<Download>),
    AddLinkError,
>)
    requires
        old(store).wf(),
    ensures
        final(store).wf(),
        candidate is Err ==> {
            &&& r matches Err(e) && e == AddLinkError::ClipboardRead
            &&& final(store)@ == old(store)@
        },
        candidate matches Ok(text) ==> {
            &&& !valid_link(text@) ==> {
                &&& r matches Err(e) && e == AddLinkError::NoValidLink
                &&& final(store)@ == old(store)@
            }
            &&& valid_link(text@) && contains_url(old(store)@, text@) ==> {
                &&& r matches Err(e) && e == AddLinkError::AlreadyAdded
                &&& final(store)@ == old(store)@
            }
            &&& valid_link(text@) && !contains_url(old(store)@, text@) ==> {
                &&& final(store)@ == old(store)@.insert(0, new_job(text@))
                &&& r matches Ok(p) && p.0@ == text@ && p.1.deep_view() == final(store)@
            }
        },
{
    match candidate {
        Err(_) => Err(AddLinkError::ClipboardRead),
        Ok(text) => {
            if !str_starts_with(text.as_str(), "https://www.youtube.com/") {
                return Err(AddLinkError::NoValidLink);
            }
            let mut metadata = Metadata::default();
            metadata.url = text.clone();
            metadata.loading = true;
            let job = Download { metadata, download_state: DownloadState::Idle };
            assert(job@ == new_job(text@));
            if !store.add(job) {
                return Err(AddLinkError::AlreadyAdded);
            }
            let snapshot = store.list();
            Ok((text, snapshot))
        },
    }
}

/// Submitting the same valid link twice yields success and then rejection:
/// the first submission leaves a job with that URL at the front of the store,
/// so the store now contains the URL and `try_add` answers `AlreadyAdded` for
/// the second submission.
pub proof fn lemma_duplicate_submission_rejected(before: Seq<DownloadView>, url: Seq<char>)
    requires
        !contains_url(before, url),
    ensures
        contains_url(before.insert(0, new_job(url)), url),
{
    let after = before.insert(0, new_job(url));
    assert(after[0] == new_job(url));
    assert(0 < after.len());
}

} // verus!
