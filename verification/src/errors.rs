//! Error taxonomy.  Every operation of the core returns one of these typed
//! failures; nothing here terminates the process.  Each kind carries a fixed
//! display text, exposed through `message`, which the driver shows as a
//! notification.

use vstd::prelude::*;

verus! {

/// Why a submitted link was not added to the store.
#[derive(Clone, Copy, Debug, PartialEq, Eq, Structural)]
pub enum AddLinkError {
    AlreadyAdded,
    NoValidLink,
    ClipboardRead,
}

/// The display text of an [`AddLinkError`].
pub open spec fn add_link_error_text(e: AddLinkError) -> Seq<char> {
    match e {
        AddLinkError::AlreadyAdded => "Video has already been added"@,
        AddLinkError::NoValidLink => "Clipboard doesn't contain a valid link"@,
        AddLinkError::ClipboardRead => "Clipboard read error"@,
    }
}

impl AddLinkError {
    pub fn message(&self) -> (r: String)
        ensures
            r@ == add_link_error_text(*self),
    {
        match self {
            AddLinkError::AlreadyAdded => String::from_str("Video has already been added"),
            AddLinkError::NoValidLink => String::from_str("Clipboard doesn't contain a valid link"),
            AddLinkError::ClipboardRead => String::from_str("Clipboard read error"),
        }
    }
}

/// Why a metadata fetch failed.
#[derive(Clone, Copy, Debug, PartialEq, Eq, Structural)]
pub enum MetadataError {
    RetreivalFailed,
    ParsingFailed,
    MissingFields,
}

/// The display text of a [`MetadataError`].
pub open spec fn metadata_error_text(e: MetadataError) -> Seq<char> {
    match e {
        MetadataError::RetreivalFailed => "Retreiving metadata failed"@,
        MetadataError::ParsingFailed => "Metadata parsing failed"@,
        MetadataError::MissingFields => "Insufficient metadata fields"@,
    }
}

impl MetadataError {
    pub fn message(&self) -> (r: String)
        ensures
            r@ == metadata_error_text(*self),
    {
        match self {
            MetadataError::RetreivalFailed => String::from_str("Retreiving metadata failed"),
            MetadataError::ParsingFailed => String::from_str("Metadata parsing failed"),
            MetadataError::MissingFields => String::from_str("Insufficient metadata fields"),
        }
    }
}

/// Why an update cycle failed.
#[derive(Clone, Copy, Debug, PartialEq, Eq, Structural)]
pub enum UpdateError {
    CheckFailed,
    BuildFailed,
    DownloadAndInstallFailed,
}

/// The display text of an [`UpdateError`].
pub open spec fn update_error_text(e: UpdateError) -> Seq<char> {
    match e {
        UpdateError::CheckFailed => "Checking for updates failed"@,
        UpdateError::BuildFailed => "Building updater failed"@,
        UpdateError::DownloadAndInstallFailed => "Downloading and installing updates failed"@,
    }
}

impl UpdateError {
    pub fn message(&self) -> (r: String)
        ensures
            r@ == update_error_text(*self),
    {
        match self {
            UpdateError::CheckFailed => String::from_str("Checking for updates failed"),
            UpdateError::BuildFailed => String::from_str("Building updater failed"),
            UpdateError::DownloadAndInstallFailed => String::from_str(
                "Downloading and installing updates failed",
            ),
        }
    }
}

/// The cross-cutting error type: everything an operation of this library can
/// report to its caller.
#[derive(Debug)]
pub enum YaydlError {
    AddLinkError(AddLinkError),
    TauriShellError(String),
    MetadataError(MetadataError),
    UpdateError(UpdateError),
    Utf8Conversion,
    UnsupportedOs,
    FolderSelectionFailed,
}

/// The display text of a [`YaydlError`].
pub open spec fn yaydl_error_text(e: YaydlError) -> Seq<char> {
    match e {
        YaydlError::AddLinkError(inner) => add_link_error_text(inner),
        YaydlError::TauriShellError(detail) => "Shell error: "@ + detail@,
        YaydlError::MetadataError(inner) => metadata_error_text(inner),
        YaydlError::UpdateError(inner) => update_error_text(inner),
        YaydlError::Utf8Conversion => "Failed to convert output to UTF-8"@,
        YaydlError::UnsupportedOs => "Unsupported operating system"@,
        YaydlError::FolderSelectionFailed => "Folder selection failed"@,
    }
}

impl YaydlError {
    pub fn message(&self) -> (r: String)
        ensures
            r@ == yaydl_error_text(*self),
    {
        match self {
            YaydlError::AddLinkError(inner) => inner.message(),
            YaydlError::TauriShellError(detail) => String::from_str("Shell error: ").concat(
                detail.as_str(),
            ),
            YaydlError::MetadataError(inner) => inner.message(),
            YaydlError::UpdateError(inner) => inner.message(),
            YaydlError::Utf8Conversion => String::from_str("Failed to convert output to UTF-8"),
            YaydlError::UnsupportedOs => String::from_str("Unsupported operating system"),
            YaydlError::FolderSelectionFailed => String::from_str("Folder selection failed"),
        }
    }
}

} // verus!
