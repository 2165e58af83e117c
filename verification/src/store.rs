//! The job store: the authoritative collection of download jobs, newest
//! first, with at most one job per source URL.  The driver wraps one store in
//! an exclusive lock and holds that lock for the full duration of each
//! operation here; the subprocess calls themselves happen outside the lock.

use vstd::prelude::*;

use crate::text::str_eq;
use crate::types::{Download, DownloadState, DownloadView, Metadata, MetadataView};

verus! {

/// True when some job in `s` has the source URL `url`.
pub open spec fn contains_url(s: Seq<DownloadView>, url: Seq<char>) -> bool {
    exists|i: int| 0 <= i < s.len() && s[i].metadata.url == url
}

/// No two jobs share a source URL.
pub open spec fn urls_distinct(s: Seq<DownloadView>) -> bool {
    forall|i: int, j: int| 0 <= i < j < s.len() ==> s[i].metadata.url != s[j].metadata.url
}

/// The first index at or after `i` whose job matches `key` by id or by URL,
/// or `s.len()` when none does.
pub open spec fn find_key_from(s: Seq<DownloadView>, key: Seq<char>, i: int) -> int
    decreases s.len() - i,
{
    if 0 <= i < s.len() {
        if s[i].metadata.id == key || s[i].metadata.url == key {
            i
        } else {
            find_key_from(s, key, i + 1)
        }
    } else {
        s.len() as int
    }
}

/// The first index at or after `i` whose job has the id `id`, or `s.len()`.
pub open spec fn find_id_from(s: Seq<DownloadView>, id: Seq<char>, i: int) -> int
    decreases s.len() - i,
{
    if 0 <= i < s.len() {
        if s[i].metadata.id == id {
            i
        } else {
            find_id_from(s, id, i + 1)
        }
    } else {
        s.len() as int
    }
}

/// The first index at or after `i` whose job has the source URL `url`, or
/// `s.len()`.
pub open spec fn find_url_from(s: Seq<DownloadView>, url: Seq<char>, i: int) -> int
    decreases s.len() - i,
{
    if 0 <= i < s.len() {
        if s[i].metadata.url == url {
            i
        } else {
            find_url_from(s, url, i + 1)
        }
    } else {
        s.len() as int
    }
}

/// An empty store after a clear, whatever it held before.
pub open spec fn store_clear(s: Seq<DownloadView>) -> Seq<DownloadView> {
    Seq::empty()
}

/// The in-memory collection of download jobs.
pub struct JobStore {
    jobs: Vec<Download>,
}

impl View for JobStore {
    type V = Seq<DownloadView>;

    closed spec fn view(&self) -> Seq<DownloadView> {
        self.jobs.deep_view()
    }
}

impl JobStore {
    /// The store's invariant: at most one job per distinct source URL.
    pub open spec fn wf(&self) -> bool {
        urls_distinct(self@)
    }

    /// Creates an empty store.
    pub fn new() -> (r: Self)
        ensures
            r@ == Seq::<DownloadView>::empty(),
            r.wf(),
    {
        let r = JobStore { jobs: Vec::new() };
        proof {
            assert(r@ =~= Seq::<DownloadView>::empty());
        }
        r
    }

    /// The number of jobs held.
    pub fn len(&self) -> (n: usize)
        ensures
            n == self@.len(),
    {
        self.jobs.len()
    }

    /// Decides the store invariant, for an unverified caller that must check
    /// it at the boundary before handing a store in.
    pub fn is_wf(&self) -> (r: bool)
        ensures
            r == self.wf(),
    {
        let n = self.jobs.len();
        let mut i: usize = 0;
        while i < n
            invariant
                i <= n,
                n == self@.len(),
                self@.len() == self.jobs@.len(),
                forall|a: int, b: int|
                    0 <= a < b < n && a < i ==> self@[a].metadata.url != self@[b].metadata.url,
            decreases n - i,
        {
            let mut j: usize = i + 1;
            while j < n
                invariant
                    i < j <= n,
                    i < n,
                    n == self@.len(),
                    self@.len() == self.jobs@.len(),
                    forall|b: int| i < b < j ==> self@[i as int].metadata.url != self@[b].metadata.url,
                decreases n - j,
            {
                if str_eq(
                    self.jobs[i].metadata.url.as_str(),
                    self.jobs[j].metadata.url.as_str(),
                ) {
                    assert(self@[i as int].metadata.url == self@[j as int].metadata.url);
                    return false;
                }
                j += 1;
            }
            i += 1;
        }
        true
    }

    /// Decides whether a job with the given source URL is present.
    pub fn has_url(&self, url: &str) -> (r: bool)
        ensures
            r == contains_url(self@, url@),
    {
        let n = self.jobs.len();
        let mut i: usize = 0;
        while i < n
            invariant
                i <= n,
                n == self@.len(),
                self@.len() == self.jobs@.len(),
                forall|k: int| 0 <= k < i ==> self@[k].metadata.url != url@,
            decreases n - i,
        {
            if str_eq(self.jobs[i].metadata.url.as_str(), url) {
                assert(self@[i as int].metadata.url == url@);
                return true;
            }
            i += 1;
        }
        false
    }

    /// Adds a job at the front, unless one with the same URL is already held;
    /// reports whether it was inserted.
    pub fn add(&mut self, job: Download) -> (added: bool)
        requires
            old(self).wf(),
        ensures
            final(self).wf(),
            added == !contains_url(old(self)@, job@.metadata.url),
            added ==> final(self)@ == old(self)@.insert(0, job@),
            !added ==> final(self)@ == old(self)@,
    {
        if self.has_url(job.metadata.url.as_str()) {
            return false;
        }
        let ghost prev = self@;
        let ghost jobv = job@;
        self.jobs.insert(0, job);
        proof {
            assert(self@ =~= prev.insert(0, jobv));
            assert forall|i: int, j: int| 0 <= i < j < self@.len() implies self@[i].metadata.url
                != self@[j].metadata.url by {
                if i == 0 {
                    assert(self@[j] == prev[j - 1]);
                    assert(prev[j - 1].metadata.url != jobv.metadata.url);
                } else {
                    assert(self@[i] == prev[i - 1]);
                    assert(self@[j] == prev[j - 1]);
                }
            }
        }
        true
    }

    /// Returns a copy of the first job matching `key` by id or by source URL.
    pub fn find_by_id_or_url(&self, key: &str) -> (r: Option<Download>)
        ensures
            ({
                let i = find_key_from(self@, key@, 0);
                if i < self@.len() {
                    r matches Some(d) && d@ == self@[i]
                } else {
                    r is None
                }
            }),
    {
        let n = self.jobs.len();
        let mut i: usize = 0;
        while i < n
            invariant
                i <= n,
                n == self@.len(),
                self@.len() == self.jobs@.len(),
                find_key_from(self@, key@, 0) == find_key_from(self@, key@, i as int),
            decreases n - i,
        {
            let matched = str_eq(self.jobs[i].metadata.id.as_str(), key) || str_eq(
                self.jobs[i].metadata.url.as_str(),
                key,
            );
            if matched {
                assert(find_key_from(self@, key@, i as int) == i);
                return Some(self.jobs[i].clone());
            }
            i += 1;
        }
        None
    }

    /// Replaces the state of the first job with the given id.  A job is
    /// matched by id alone, so a late event for a cleared or never-known job
    /// is silently dropped: when no job matches, the store is unchanged.
    pub fn update_state(&mut self, id: &str, new_state: DownloadState)
        requires
            old(self).wf(),
        ensures
            final(self).wf(),
            ({
                let i = find_id_from(old(self)@, id@, 0);
                if i < old(self)@.len() {
                    final(self)@ == old(self)@.update(
                        i,
                        (DownloadView { download_state: new_state, ..old(self)@[i] }),
                    )
                } else {
                    final(self)@ == old(self)@
                }
            }),
    {
        let ghost prev = self@;
        let n = self.jobs.len();
        let mut i: usize = 0;
        while i < n
            invariant
                i <= n,
                n == self@.len(),
                self@.len() == self.jobs@.len(),
                self@ == prev,
                find_id_from(prev, id@, 0) == find_id_from(prev, id@, i as int),
            decreases n - i,
        {
            if str_eq(self.jobs[i].metadata.id.as_str(), id) {
                assert(find_id_from(prev, id@, i as int) == i);
                let mut d = self.jobs.remove(i);
                d.download_state = new_state;
                self.jobs.insert(i, d);
                proof {
                    assert(self@ =~= prev.update(
                        i as int,
                        (DownloadView { download_state: new_state, ..prev[i as int] }),
                    ));
                    assert forall|a: int, b: int| 0 <= a < b < self@.len() implies self@[a].metadata.url
                        != self@[b].metadata.url by {
                        assert(self@[a].metadata.url == prev[a].metadata.url);
                        assert(self@[b].metadata.url == prev[b].metadata.url);
                    }
                }
                return ;
            }
            i += 1;
        }
    }

    /// Fills in the metadata of the first job with the given source URL.  The
    /// job's URL itself is immutable and kept; when no job matches, the store
    /// is unchanged.
    pub fn update_metadata(&mut self, url: &str, metadata: Metadata)
        requires
            old(self).wf(),
        ensures
            final(self).wf(),
            ({
                let i = find_url_from(old(self)@, url@, 0);
                if i < old(self)@.len() {
                    final(self)@ == old(self)@.update(
                        i,
                        (DownloadView {
                            metadata: (MetadataView {
                                url: old(self)@[i].metadata.url,
                                ..metadata@
                            }),
                            ..old(self)@[i]
                        }),
                    )
                } else {
                    final(self)@ == old(self)@
                }
            }),
    {
        let ghost prev = self@;
        let ghost metav = metadata@;
        let n = self.jobs.len();
        let mut i: usize = 0;
        while i < n
            invariant
                i <= n,
                n == self@.len(),
                self@.len() == self.jobs@.len(),
                self@ == prev,
                metadata@ == metav,
                find_url_from(prev, url@, 0) == find_url_from(prev, url@, i as int),
            decreases n - i,
        {
            if str_eq(self.jobs[i].metadata.url.as_str(), url) {
                assert(find_url_from(prev, url@, i as int) == i);
                let mut d = self.jobs.remove(i);
                let kept_url = d.metadata.url;
                d.metadata = metadata;
                d.metadata.url = kept_url;
                self.jobs.insert(i, d);
                proof {
                    assert(self@ =~= prev.update(
                        i as int,
                        (DownloadView {
                            metadata: (MetadataView { url: prev[i as int].metadata.url, ..metav }),
                            ..prev[i as int]
                        }),
                    ));
                    assert forall|a: int, b: int| 0 <= a < b < self@.len() implies self@[a].metadata.url
                        != self@[b].metadata.url by {
                        assert(self@[a].metadata.url == prev[a].metadata.url);
                        assert(self@[b].metadata.url == prev[b].metadata.url);
                    }
                }
                return ;
            }
            i += 1;
        }
    }

    /// Returns a snapshot copy of every job, in stored order.
    pub fn list(&self) -> (r: Vec<Download>)
        ensures
            r.deep_view() == self@,
    {
        let n = self.jobs.len();
        let mut r: Vec<Download> = Vec::new();
        let mut i: usize = 0;
        while i < n
            invariant
                i <= n,
                n == self@.len(),
                self@.len() == self.jobs@.len(),
                r.deep_view().len() == i,
                forall|k: int| 0 <= k < i ==> r.deep_view()[k] == self@[k],
            decreases n - i,
        {
            r.push(self.jobs[i].clone());
            i += 1;
        }
        proof {
            assert(r.deep_view() =~= self@);
        }
        r
    }

    /// Removes every job.
    ///
    /// See `lemma_clear_then_list` for the law that a listing taken after a
    /// clear is empty.
    pub fn clear(&mut self)
        ensures
            final(self).wf(),
            final(self)@ == store_clear(old(self)@),
    {
        self.jobs.clear();
        proof {
            assert(self@ =~= Seq::<DownloadView>::empty());
        }
    }
}

/// Clearing the store and then listing it yields the empty sequence,
/// whatever the store held before: `clear` leaves `store_clear` of the prior
/// contents, and `list` returns the contents as they stand.
pub proof fn lemma_clear_then_list(before: Seq<DownloadView>)
    ensures
        store_clear(before).len() == 0,
{
}

} // verus!
