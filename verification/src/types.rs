//! Data model of the download lifecycle: settings, per-job metadata, jobs and
//! their states, and the events that flow to observers.

use vstd::prelude::*;

verus! {

/// User-chosen settings; the core reads `output_dir` and `output_format` at
/// the start of each extraction run.  `dark_theme` is for display only.
pub struct Settings {
    pub output_dir: String,
    pub output_format: String,
    pub dark_theme: bool,
}

impl Clone for Settings {
    fn clone(&self) -> (res: Self)
        ensures
            res == *self,
    {
        Settings {
            output_dir: self.output_dir.clone(),
            output_format: self.output_format.clone(),
            dark_theme: self.dark_theme,
        }
    }
}

/// Mathematical value of a [`Metadata`] record.
pub struct MetadataView {
    pub id: Seq<char>,
    pub url: Seq<char>,
    pub title: Seq<char>,
    pub duration: Seq<char>,
    pub thumbnail: Seq<char>,
    pub loading: bool,
}

/// Descriptive fields for a source URL, filled in once the external tool has
/// answered.  `loading` is true while the fetch is under way.
#[derive(Debug, PartialEq)]
pub struct Metadata {
    pub id: String,
    pub url: String,
    pub title: String,
    pub duration: String,
    pub thumbnail: String,
    pub loading: bool,
}

impl View for Metadata {
    type V = MetadataView;

    open spec fn view(&self) -> MetadataView {
        MetadataView {
            id: self.id@,
            url: self.url@,
            title: self.title@,
            duration: self.duration@,
            thumbnail: self.thumbnail@,
            loading: self.loading,
        }
    }
}

impl DeepView for Metadata {
    type V = MetadataView;

    open spec fn deep_view(&self) -> MetadataView {
        self.view()
    }
}

/// A metadata record with every text field empty and the fetch not running.
pub open spec fn empty_metadata() -> MetadataView {
    MetadataView {
        id: Seq::empty(),
        url: Seq::empty(),
        title: Seq::empty(),
        duration: Seq::empty(),
        thumbnail: Seq::empty(),
        loading: false,
    }
}

impl Clone for Metadata {
    fn clone(&self) -> (res: Self)
        ensures
            res == *self,
    {
        Metadata {
            id: self.id.clone(),
            url: self.url.clone(),
            title: self.title.clone(),
            duration: self.duration.clone(),
            thumbnail: self.thumbnail.clone(),
            loading: self.loading,
        }
    }
}

impl Default for Metadata {
    fn default() -> (res: Self)
        ensures
            res@ == empty_metadata(),
    {
        Metadata {
            id: String::new(),
            url: String::new(),
            title: String::new(),
            duration: String::new(),
            thumbnail: String::new(),
            loading: false,
        }
    }
}

/// The arguments with which the driver asks for a metadata fetch or an
/// extraction run: the job's source URL and its identifier.
pub struct MetadataArgs<'a> {
    pub url: &'a str,
    pub id: &'a str,
}

/// Where a job stands in its lifecycle.  `Loading` carries the most recently
/// reported percentage, 0 to 100.
#[derive(Clone, Copy, Debug, PartialEq, Eq, Structural)]
pub enum DownloadState {
    Idle,
    Loading(u8),
    Finished,
    Failure,
}

impl Default for DownloadState {
    fn default() -> (res: Self)
        ensures
            res == DownloadState::Idle,
    {
        DownloadState::Idle
    }
}

/// Mathematical value of a [`Download`].
pub struct DownloadView {
    pub metadata: MetadataView,
    pub download_state: DownloadState,
}

/// One user-requested download job: its metadata and its current state.
#[derive(Debug, PartialEq)]
pub struct Download {
    pub metadata: Metadata,
    pub download_state: DownloadState,
}

impl View for Download {
    type V = DownloadView;

    open spec fn view(&self) -> DownloadView {
        DownloadView { metadata: self.metadata@, download_state: self.download_state }
    }
}

impl DeepView for Download {
    type V = DownloadView;

    open spec fn deep_view(&self) -> DownloadView {
        self.view()
    }
}

impl Clone for Download {
    fn clone(&self) -> (res: Self)
        ensures
            res == *self,
    {
        Download { metadata: self.metadata.clone(), download_state: self.download_state }
    }
}

impl Default for Download {
    fn default() -> (res: Self)
        ensures
            res@.metadata == empty_metadata(),
            res@.download_state == DownloadState::Idle,
    {
        Download { metadata: Metadata::default(), download_state: DownloadState::default() }
    }
}

/// Mathematical value of a [`DownloadEvent`].
pub struct DownloadEventView {
    pub id: Seq<char>,
    pub progress: u8,
}

/// A normalized progress notification for one job, emitted to observers while
/// an extraction runs.  `progress` is a percentage, 0 to 100.
#[derive(Debug, PartialEq)]
pub struct DownloadEvent {
    pub id: String,
    pub progress: u8,
}

impl View for DownloadEvent {
    type V = DownloadEventView;

    open spec fn view(&self) -> DownloadEventView {
        DownloadEventView { id: self.id@, progress: self.progress }
    }
}

impl Clone for DownloadEvent {
    fn clone(&self) -> (res: Self)
        ensures
            res == *self,
    {
        DownloadEvent { id: self.id.clone(), progress: self.progress }
    }
}

/// The tagged union of everything the core sends over the event channel:
/// per-job download progress, update-download progress, and the signal that an
/// update finished downloading.
#[derive(Debug, PartialEq)]
pub enum AppEvent {
    DownloadProgress(DownloadEvent),
    UpdateProgress(u8),
    UpdateFinished,
}

} // verus!
