//! The engine's side of the conversation with the file system.
//!
//! The engine reads no directory and moves no file. Each step of an
//! operation hands its caller one [`Action`] to carry out; the caller reports
//! what came of it as an [`Event`], and the operation goes on from there.

use crate::error::{Error, ErrorView};
use crate::models::{ArchivedRecord, RecordView};
use crate::time::Timestamp;
use vstd::prelude::*;

verus! {

/// An immediate child of the projects directory.
#[derive(Debug)]
pub struct DirEntry {
    /// The entry's own name, without its parents.
    pub name: String,
    /// The entry's full path.
    pub path: String,
    /// Whether the entry is a directory.
    pub is_dir: bool,
    /// Whether the entry holds a directory named `.git`.
    pub has_git_dir: bool,
}

/// The mathematical value of a [`DirEntry`].
pub struct DirEntryView {
    pub name: Seq<char>,
    pub path: Seq<char>,
    pub is_dir: bool,
    pub has_git_dir: bool,
}

impl View for DirEntry {
    type V = DirEntryView;

    open spec fn view(&self) -> DirEntryView {
        DirEntryView {
            name: self.name@,
            path: self.path@,
            is_dir: self.is_dir,
            has_git_dir: self.has_git_dir,
        }
    }
}

impl DeepView for DirEntry {
    type V = DirEntryView;

    open spec fn deep_view(&self) -> DirEntryView {
        self@
    }
}

/// What the engine asks its caller to do next.
#[derive(Debug)]
pub enum Action {
    /// List the immediate children of `dir`, in the order in which the
    /// directory yields them. Answered by [`Event::Entries`].
    ListProjects { dir: String },
    /// Open the repository in `repo` and read the commit time, in seconds
    /// since 1970-01-01T00:00:00Z, of the commit at the tip of each local
    /// branch; a branch that does not lead to a commit is left out.
    /// Answered by [`Event::BranchTips`].
    ReadBranchTips { repo: String },
    /// Walk everything below `dir` and read the modification time of each
    /// regular file. Answered by [`Event::FileTimes`].
    ReadFileTimes { dir: String },
    /// Read the modification time of `dir` itself. Answered by
    /// [`Event::DirTime`].
    ReadDirTime { dir: String },
    /// Create the parent directories of `to` as needed, then rename `from`
    /// to `to`. Answered by [`Event::Done`].
    MoveDir { from: String, to: String },
    /// Remove the directory `path` and everything in it. Answered by
    /// [`Event::Done`].
    RemoveDir { path: String },
    /// Read and decode the archive log at `path`. Answered by
    /// [`Event::LogMissing`] if there is no such file, by
    /// [`Event::LogCorrupt`] if it does not decode, and by
    /// [`Event::LogRecords`] otherwise.
    ReadLog { path: String },
    /// Replace the archive log at `path` by the encoding of `records`: the
    /// whole file is written anew. Answered by [`Event::Done`].
    WriteLog { path: String, records: Vec<ArchivedRecord> },
}

/// The mathematical value of an [`Action`].
pub enum ActionView {
    ListProjects { dir: Seq<char> },
    ReadBranchTips { repo: Seq<char> },
    ReadFileTimes { dir: Seq<char> },
    ReadDirTime { dir: Seq<char> },
    MoveDir { from: Seq<char>, to: Seq<char> },
    RemoveDir { path: Seq<char> },
    ReadLog { path: Seq<char> },
    WriteLog { path: Seq<char>, records: Seq<RecordView> },
}

impl View for Action {
    type V = ActionView;

    open spec fn view(&self) -> ActionView {
        match *self {
            Action::ListProjects { dir } => ActionView::ListProjects { dir: dir@ },
            Action::ReadBranchTips { repo } => ActionView::ReadBranchTips { repo: repo@ },
            Action::ReadFileTimes { dir } => ActionView::ReadFileTimes { dir: dir@ },
            Action::ReadDirTime { dir } => ActionView::ReadDirTime { dir: dir@ },
            Action::MoveDir { from, to } => ActionView::MoveDir { from: from@, to: to@ },
            Action::RemoveDir { path } => ActionView::RemoveDir { path: path@ },
            Action::ReadLog { path } => ActionView::ReadLog { path: path@ },
            Action::WriteLog { path, records } => ActionView::WriteLog {
                path: path@,
                records: records.deep_view(),
            },
        }
    }
}

impl ActionView {
    /// Whether carrying out the action changes anything on disk.
    pub open spec fn mutates(self) -> bool {
        self is MoveDir || self is RemoveDir || self is WriteLog
    }
}

/// What came of the last [`Action`].
#[derive(Debug)]
pub enum Event {
    /// The children of the listed directory.
    Entries(Vec<DirEntry>),
    /// The commit times at the tips of the repository's local branches.
    BranchTips(Vec<i64>),
    /// The modification times of the regular files that the walk found.
    FileTimes(Vec<Timestamp>),
    /// The modification time of the directory itself.
    DirTime(Timestamp),
    /// There is no archive log yet.
    LogMissing,
    /// The records that the archive log holds.
    LogRecords(Vec<ArchivedRecord>),
    /// The archive log exists but does not decode; the text says why.
    LogCorrupt(String),
    /// The action was carried out.
    Done,
    /// The action failed.
    Failed(Error),
}

/// The mathematical value of an [`Event`].
pub enum EventView {
    Entries(Seq<DirEntryView>),
    BranchTips(Seq<i64>),
    FileTimes(Seq<Timestamp>),
    DirTime(Timestamp),
    LogMissing,
    LogRecords(Seq<RecordView>),
    LogCorrupt(Seq<char>),
    Done,
    Failed(ErrorView),
}

impl View for Event {
    type V = EventView;

    open spec fn view(&self) -> EventView {
        match *self {
            Event::Entries(entries) => EventView::Entries(entries.deep_view()),
            Event::BranchTips(tips) => EventView::BranchTips(tips@),
            Event::FileTimes(times) => EventView::FileTimes(times@),
            Event::DirTime(time) => EventView::DirTime(time),
            Event::LogMissing => EventView::LogMissing,
            Event::LogRecords(records) => EventView::LogRecords(records.deep_view()),
            Event::LogCorrupt(why) => EventView::LogCorrupt(why@),
            Event::Done => EventView::Done,
            Event::Failed(e) => EventView::Failed(e@),
        }
    }
}

/// The error for an [`Event`] that does not answer the [`Action`] that was
/// asked for.
pub open spec fn unexpected_event() -> ErrorView {
    ErrorView::Custom("Unexpected event"@)
}

/// The error that an operation ends with when `event` is not the success
/// that it waits for: the failure that the event reports, or the error for
/// an event that is no answer at all.
pub open spec fn failure_of(event: EventView) -> ErrorView {
    match event {
        EventView::Failed(e) => e,
        _ => unexpected_event(),
    }
}

} // verus!
