//! Download lifecycle manager: tracks a collection of download jobs, validates
//! submitted links, parses the external tool's metadata and progress output,
//! and derives the update supervisor's progress events.
//!
//! The library is pure logic over plain values.  Everything that touches the
//! outside world — the clipboard, the spawned extraction tool, the event
//! channel to the user interface, settings persistence — lives in the thin
//! driver around it, which feeds bytes and strings in and carries events out.

#![verifier::loop_isolation(false)]

pub mod errors;
pub mod intake;
pub mod metadata;
pub mod notify;
pub mod platform;
pub mod progress;
pub mod store;
pub mod text;
pub mod types;
pub mod update;

pub use errors::{AddLinkError, MetadataError, UpdateError, YaydlError};
pub use intake::{try_add, ReadError};
pub use metadata::retreive_metadata;
pub use notify::{Notification, NotificationContext, NotificationType};
pub use platform::explorer_command;
pub use progress::{apply_run_result, extraction_args, parse_progress_line, progress_event};
pub use store::JobStore;
pub use types::{AppEvent, Download, DownloadEvent, DownloadState, Metadata, MetadataArgs, Settings};
pub use update::{simulation_events, update_percent, UpdateState};
