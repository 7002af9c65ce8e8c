//! Activity detection and archival engine for project directories.
//!
//! The crate decides which project directories are inactive, plans their
//! move into an archive directory, and keeps the record of what was archived
//! so that it can be restored.
//!
//! It performs no input or output itself. Every operation is a conversation:
//! the engine hands its caller an [`Action`] to carry out on the file
//! system, the caller reports what came of it as an [`Event`], and the
//! engine answers with the next action, until the operation is finished.
//! An archive run is started with [`Archiver::run_archive_process`] and goes
//! on with [`Archiver::continue_archive_process`]; a restoration or deletion
//! is started with [`Archiver::restore_project`] or one of its relatives and
//! goes on with [`Archiver::continue_restoration`].
//!
//! What each step does is fixed by the spec functions [`run::run_step`] and
//! [`restore::restore_step`]. What whole operations come to is stated and
//! proved in [`laws`], [`whole_scan`], [`whole_run`] and [`whole_restore`].

pub mod activity;
pub mod archive_log;
pub mod archiver;
pub mod classify;
pub mod config;
pub mod error;
pub mod io;
pub mod laws;
pub mod models;
pub mod paths;
pub mod plan;
pub mod restore;
pub mod run;
pub mod scan;
pub mod time;
pub mod whole_restore;
pub mod whole_run;
pub mod whole_scan;

pub use archiver::Archiver;
pub use config::{CleanupRule, Overrides, Settings};
pub use error::Error;
pub use io::{Action, DirEntry, Event};
pub use models::{ArchivedRecord, ScannedProject};
pub use plan::ActionPlan;
pub use restore::{Disposal, Restoration, RestoreStep};
pub use run::{ArchiveRun, RunStep};
pub use scan::{Probe, Source};
pub use time::Timestamp;
