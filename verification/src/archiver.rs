//! The archiver: settings, and the operations that start from them.

use crate::archive_log::{log_contents, read_archive_log, records_result_view, ARCHIVE_LOG_FILE};
use crate::config::{Settings, SettingsView};
use crate::error::Error;
use crate::io::{Action, ActionView, Event};
use crate::models::{ArchivedRecord, ProjectView, RecordView, ScannedProject};
use crate::paths::{join_path, joined_path};
use crate::time::Timestamp;
use vstd::prelude::*;

verus! {

/// Archives inactive projects and restores archived ones, under fixed
/// settings.
#[derive(Debug)]
pub struct Archiver {
    settings: Settings,
}

impl View for Archiver {
    type V = SettingsView;

    closed spec fn view(&self) -> SettingsView {
        self.settings@
    }
}

/// Where the archive log of an archive directory is.
pub open spec fn log_path_of(settings: SettingsView) -> Seq<char> {
    joined_path(settings.archive_dir, "archive.json"@)
}

/// Where `project` goes when it is archived: under its own name, directly
/// inside the archive directory.
pub open spec fn destination_of(settings: SettingsView, project: ProjectView) -> Seq<char> {
    joined_path(settings.archive_dir, project.name)
}

/// The request that moves `project` into the archive.
pub open spec fn move_request(settings: SettingsView, project: ProjectView) -> ActionView {
    ActionView::MoveDir { from: project.path, to: destination_of(settings, project) }
}

/// The log record of `project`, archived at `now`.
pub open spec fn record_of(settings: SettingsView, project: ProjectView, now: Timestamp) -> RecordView {
    RecordView {
        name: project.name,
        original_path: project.path,
        archive_path: destination_of(settings, project),
        archived_at: now,
    }
}

impl Archiver {
    /// An archiver that works under `settings`.
    pub fn new(settings: Settings) -> (archiver: Archiver)
        ensures
            archiver@ == settings@,
    {
        Archiver { settings }
    }

    /// The settings that the archiver works under.
    pub fn settings(&self) -> (settings: &Settings)
        ensures
            settings@ == self@,
    {
        &self.settings
    }

    /// The path of the archive log: the file `archive.json` inside the
    /// archive directory.
    pub fn log_path(&self) -> (path: String)
        ensures
            path@ == log_path_of(self@),
    {
        join_path(self.settings.archive_dir.as_str(), ARCHIVE_LOG_FILE)
    }

    /// The request to read the archive log. Its answer goes to
    /// [`Archiver::get_archive_records`].
    pub fn read_log_request(&self) -> (action: Action)
        ensures
            action@ == (ActionView::ReadLog { path: log_path_of(self@) }),
    {
        Action::ReadLog { path: self.log_path() }
    }

    /// The request to replace the archive log by `records`.
    pub fn write_archive_log(&self, records: Vec<ArchivedRecord>) -> (action: Action)
        ensures
            action@ == (ActionView::WriteLog {
                path: log_path_of(self@),
                records: records.deep_view(),
            }),
    {
        Action::WriteLog { path: self.log_path(), records }
    }

    /// The records of the projects that are archived now, from the answer
    /// to [`Archiver::read_log_request`].
    ///
    /// Where no log exists yet the result is the empty list, not an error.
    /// Where the log does not decode the result is the error `Json`.
    pub fn get_archive_records(&self, event: Event) -> (r: Result<Vec<ArchivedRecord>, Error>)
        ensures
            records_result_view(r) == log_contents(event@),
    {
        read_archive_log(event)
    }

    /// The request that moves `project` into the archive: the directory
    /// goes from where it is to its own name inside the archive directory.
    pub fn archive_project(&self, project: &ScannedProject) -> (action: Action)
        ensures
            action@ == move_request(self@, project@),
    {
        let destination = join_path(self.settings.archive_dir.as_str(), project.name.as_str());
        Action::MoveDir { from: project.path.clone(), to: destination }
    }

    /// The log record of `project`, moved into the archive at `now`.
    pub fn archived_record(&self, project: &ScannedProject, now: Timestamp) -> (record:
        ArchivedRecord)
        ensures
            record@ == record_of(self@, project@, now),
    {
        ArchivedRecord {
            name: project.name.clone(),
            original_path: project.path.clone(),
            archive_path: join_path(self.settings.archive_dir.as_str(), project.name.as_str()),
            archived_at: now,
        }
    }
}

} // verus!
