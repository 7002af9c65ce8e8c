//! Taking projects out of the archive, step by step.
//!
//! A project leaves the archive in one of two ways: it is restored, that
//! is moved back to where it came from, or it is deleted. Either way its
//! record leaves the archive log, and the log is written right after the
//! project is gone from the archive, one project at a time: a failure
//! partway through many leaves a log that matches the archive.
//!
//! Records are found by name, and names are not keys: where several records
//! have the name that is asked for, the first of them in the log is taken.

use crate::archive_log::{find_record, log_contents, read_archive_log, record_position};
use crate::archiver::{log_path_of, Archiver};
use crate::config::SettingsView;
use crate::error::{Error, ErrorView};
use crate::io::{failure_of, unexpected_event, Action, ActionView, Event, EventView};
use crate::models::{ArchivedRecord, RecordView};
use vstd::prelude::*;
use vstd::string::StringExecFns;

verus! {

/// How a project leaves the archive.
#[derive(Clone, Copy, Debug, PartialEq, Eq, Structural)]
pub enum Disposal {
    /// It is moved back to its original path.
    Restore,
    /// It is removed for good.
    Delete,
}

/// Where the removal of projects from the archive stands.
#[derive(Debug)]
pub enum Restoration {
    /// The archive log is being read. `target` names the one project that
    /// is to leave the archive; with `None`, all of them are.
    ReadingLog { disposal: Disposal, target: Option<String> },
    /// The project of `records[index]` is being moved back or deleted.
    Disposing {
        disposal: Disposal,
        all: bool,
        records: Vec<ArchivedRecord>,
        index: usize,
        total: usize,
    },
    /// The log is being written without the record of the project that
    /// just left the archive.
    WritingLog { disposal: Disposal, all: bool, remaining: Vec<ArchivedRecord>, total: usize },
    /// The operation is over.
    Closed,
}

/// The mathematical value of a [`Restoration`].
pub enum RestorationView {
    ReadingLog { disposal: Disposal, target: Option<Seq<char>> },
    Disposing { disposal: Disposal, all: bool, records: Seq<RecordView>, index: int, total: usize },
    WritingLog { disposal: Disposal, all: bool, remaining: Seq<RecordView>, total: usize },
    Closed,
}

impl View for Restoration {
    type V = RestorationView;

    open spec fn view(&self) -> RestorationView {
        match *self {
            Restoration::ReadingLog { disposal, target } => RestorationView::ReadingLog {
                disposal,
                target: target.deep_view(),
            },
            Restoration::Disposing {
                disposal,
                all,
                records,
                index,
                total,
            } => RestorationView::Disposing {
                disposal,
                all,
                records: records.deep_view(),
                index: index as int,
                total,
            },
            Restoration::WritingLog {
                disposal,
                all,
                remaining,
                total,
            } => RestorationView::WritingLog {
                disposal,
                all,
                remaining: remaining.deep_view(),
                total,
            },
            Restoration::Closed => RestorationView::Closed,
        }
    }
}

/// What a step of a restoration hands back: the next thing to do, or the
/// number of projects that left the archive.
#[derive(Debug)]
pub enum RestoreStep {
    /// Carry out this action and report the event.
    Do(Action),
    /// The operation is over, with this count or this error.
    Finished(Result<usize, Error>),
}

/// The mathematical value of a [`RestoreStep`].
pub enum RestoreStepView {
    Do(ActionView),
    Finished(Result<usize, ErrorView>),
}

impl View for RestoreStep {
    type V = RestoreStepView;

    open spec fn view(&self) -> RestoreStepView {
        match *self {
            RestoreStep::Do(action) => RestoreStepView::Do(action@),
            RestoreStep::Finished(Ok(count)) => RestoreStepView::Finished(Ok(count)),
            RestoreStep::Finished(Err(e)) => RestoreStepView::Finished(Err(e@)),
        }
    }
}

/// The request that takes the project of `record` out of the archive:
/// a move from its archive path back to its original path, or the removal
/// of its archive path.
pub open spec fn dispose_request(disposal: Disposal, record: RecordView) -> ActionView {
    match disposal {
        Disposal::Restore => ActionView::MoveDir {
            from: record.archive_path,
            to: record.original_path,
        },
        Disposal::Delete => ActionView::RemoveDir { path: record.archive_path },
    }
}

/// A restoration that ends here with `error`.
pub open spec fn restoration_failed(error: ErrorView) -> (RestorationView, RestoreStepView) {
    (RestorationView::Closed, RestoreStepView::Finished(Err(error)))
}

/// All projects leave the archive: the first of `records` is next, and
/// with no record left the operation ends with the count `total`.
pub open spec fn dispose_first(disposal: Disposal, records: Seq<RecordView>, total: usize) -> (
    RestorationView,
    RestoreStepView,
) {
    if records.len() == 0 {
        (RestorationView::Closed, RestoreStepView::Finished(Ok(total)))
    } else {
        (
            RestorationView::Disposing { disposal, all: true, records, index: 0, total },
            RestoreStepView::Do(dispose_request(disposal, records[0])),
        )
    }
}

/// One step of a restoration: from where it stands and what came of its
/// last request, to where it stands next and what it asks for or ends with.
///
/// The project named by `target` is the one of the first record of that
/// name in the log; where there is no such record the operation ends with
/// the error `NotFound`, and nothing was moved.
pub open spec fn restore_step(settings: SettingsView, state: RestorationView, event: EventView) -> (
    RestorationView,
    RestoreStepView,
) {
    match state {
        RestorationView::ReadingLog { disposal, target } => match log_contents(event) {
            Ok(records) => match target {
                Some(name) => match record_position(records, name) {
                    Some(index) => (
                        RestorationView::Disposing { disposal, all: false, records, index, total: 1 },
                        RestoreStepView::Do(dispose_request(disposal, records[index])),
                    ),
                    None => restoration_failed(ErrorView::NotFound(name)),
                },
                None => dispose_first(disposal, records, records.len() as usize),
            },
            Err(e) => restoration_failed(e),
        },
        RestorationView::Disposing { disposal, all, records, index, total } => {
            if 0 <= index < records.len() {
                match event {
                    EventView::Done => (
                        RestorationView::WritingLog {
                            disposal,
                            all,
                            remaining: records.remove(index),
                            total,
                        },
                        RestoreStepView::Do(
                            ActionView::WriteLog {
                                path: log_path_of(settings),
                                records: records.remove(index),
                            },
                        ),
                    ),
                    other => restoration_failed(failure_of(other)),
                }
            } else {
                restoration_failed(unexpected_event())
            }
        },
        RestorationView::WritingLog { disposal, all, remaining, total } => match event {
            EventView::Done => if all {
                dispose_first(disposal, remaining, total)
            } else {
                (RestorationView::Closed, RestoreStepView::Finished(Ok(total)))
            },
            other => restoration_failed(failure_of(other)),
        },
        RestorationView::Closed => restoration_failed(unexpected_event()),
    }
}

/// The operation ends with `error`.
fn failed(error: Error) -> (r: (Restoration, RestoreStep))
    ensures
        (r.0@, r.1@) == restoration_failed(error@),
{
    (Restoration::Closed, RestoreStep::Finished(Err(error)))
}

/// The operation ends because the event does not answer its request.
fn unexpected() -> (r: (Restoration, RestoreStep))
    ensures
        (r.0@, r.1@) == restoration_failed(unexpected_event()),
{
    failed(Error::Custom(String::from_str("Unexpected event")))
}

/// The request that takes the project of `record` out of the archive: see
/// [`dispose_request`].
pub fn dispose_action(disposal: Disposal, record: &ArchivedRecord) -> (action: Action)
    ensures
        action@ == dispose_request(disposal, record@),
{
    match disposal {
        Disposal::Restore => Action::MoveDir {
            from: record.archive_path.clone(),
            to: record.original_path.clone(),
        },
        Disposal::Delete => Action::RemoveDir { path: record.archive_path.clone() },
    }
}

/// Goes on with the first of `records`: see [`dispose_first`].
fn dispose_next(disposal: Disposal, records: Vec<ArchivedRecord>, total: usize) -> (r: (
    Restoration,
    RestoreStep,
))
    ensures
        (r.0@, r.1@) == dispose_first(disposal, records.deep_view(), total),
{
    if records.len() == 0 {
        (Restoration::Closed, RestoreStep::Finished(Ok(total)))
    } else {
        assert(records.deep_view()[0] == records[0]@);
        let action = dispose_action(disposal, &records[0]);
        (
            Restoration::Disposing { disposal, all: true, records, index: 0, total },
            RestoreStep::Do(action),
        )
    }
}

impl Archiver {
    /// Starts an operation on the archive: reads the log first.
    fn begin(&self, disposal: Disposal, target: Option<String>) -> (r: (Restoration, RestoreStep))
        ensures
            r.0@ == (RestorationView::ReadingLog { disposal, target: target.deep_view() }),
            r.1@ == RestoreStepView::Do(ActionView::ReadLog { path: log_path_of(self@) }),
    {
        let action = self.read_log_request();
        (Restoration::ReadingLog { disposal, target }, RestoreStep::Do(action))
    }

    /// Starts to restore the project named `project_name`: it will be moved
    /// from the archive back to its original path, and its record taken out
    /// of the log. Each answer goes to [`Archiver::continue_restoration`].
    pub fn restore_project(&self, project_name: &str) -> (r: (Restoration, RestoreStep))
        ensures
            r.0@ == (RestorationView::ReadingLog {
                disposal: Disposal::Restore,
                target: Some(project_name@),
            }),
            r.1@ == RestoreStepView::Do(ActionView::ReadLog { path: log_path_of(self@) }),
    {
        self.begin(Disposal::Restore, Some(String::from_str(project_name)))
    }

    /// Starts to restore every archived project, in the order of the log.
    pub fn restore_all(&self) -> (r: (Restoration, RestoreStep))
        ensures
            r.0@ == (RestorationView::ReadingLog { disposal: Disposal::Restore, target: None }),
            r.1@ == RestoreStepView::Do(ActionView::ReadLog { path: log_path_of(self@) }),
    {
        self.begin(Disposal::Restore, None)
    }

    /// Starts to delete the archived project named `project_name` for good:
    /// its directory in the archive will be removed, and its record taken
    /// out of the log.
    pub fn delete_project(&self, project_name: &str) -> (r: (Restoration, RestoreStep))
        ensures
            r.0@ == (RestorationView::ReadingLog {
                disposal: Disposal::Delete,
                target: Some(project_name@),
            }),
            r.1@ == RestoreStepView::Do(ActionView::ReadLog { path: log_path_of(self@) }),
    {
        self.begin(Disposal::Delete, Some(String::from_str(project_name)))
    }

    /// Starts to delete every archived project for good, in the order of
    /// the log.
    pub fn delete_all(&self) -> (r: (Restoration, RestoreStep))
        ensures
            r.0@ == (RestorationView::ReadingLog { disposal: Disposal::Delete, target: None }),
            r.1@ == RestoreStepView::Do(ActionView::ReadLog { path: log_path_of(self@) }),
    {
        self.begin(Disposal::Delete, None)
    }

    /// One step of a restoration or deletion: see [`restore_step`].
    pub fn continue_restoration(&self, state: Restoration, event: Event) -> (r: (
        Restoration,
        RestoreStep,
    ))
        ensures
            (r.0@, r.1@) == restore_step(self@, state@, event@),
    {
        match state {
            Restoration::ReadingLog { disposal, target } => match read_archive_log(event) {
                Ok(records) => match target {
                    Some(name) => match find_record(&records, name.as_str()) {
                        Some(index) => {
                            assert(records.deep_view()[index as int] == records[index as int]@);
                            let action = dispose_action(disposal, &records[index]);
                            (
                                Restoration::Disposing {
                                    disposal,
                                    all: false,
                                    records,
                                    index,
                                    total: 1,
                                },
                                RestoreStep::Do(action),
                            )
                        },
                        None => failed(Error::NotFound(name)),
                    },
                    None => {
                        let total = records.len();
                        dispose_next(disposal, records, total)
                    },
                },
                Err(e) => failed(e),
            },
            Restoration::Disposing { disposal, all, records, index, total } => {
                if index < records.len() {
                    match event {
                        Event::Done => {
                            let mut remaining = records;
                            let ghost before = remaining.deep_view();
                            remaining.remove(index);
                            assert(remaining.deep_view() =~= before.remove(index as int));
                            let written = remaining.clone();
                            assert(written.deep_view() =~= remaining.deep_view());
                            let action = self.write_archive_log(written);
                            (
                                Restoration::WritingLog { disposal, all, remaining, total },
                                RestoreStep::Do(action),
                            )
                        },
                        Event::Failed(e) => failed(e),
                        _ => unexpected(),
                    }
                } else {
                    unexpected()
                }
            },
            Restoration::WritingLog { disposal, all, remaining, total } => match event {
                Event::Done => if all {
                    dispose_next(disposal, remaining, total)
                } else {
                    (Restoration::Closed, RestoreStep::Finished(Ok(total)))
                },
                Event::Failed(e) => failed(e),
                _ => unexpected(),
            },
            Restoration::Closed => unexpected(),
        }
    }
}

} // verus!
