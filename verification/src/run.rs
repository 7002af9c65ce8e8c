//! One archive run, step by step.
//!
//! A run lists the projects directory, finds out the last activity of each
//! project in it, picks the inactive ones, and, unless it is a dry run,
//! moves each of them into the archive and then adds their records to the
//! archive log in one write.
//!
//! A project whose last activity cannot be found out is left out of the
//! run; it does not stop it.
//!
//! The log is read and written once, after the last move. A move that fails
//! stops the run at once: the projects moved before it stay in the archive
//! without a record, and the log is as it was. The same holds where the log
//! cannot be read or written after the moves.
//!
//! A run does not look into the log for the names of the projects it moves.
//! A project that is archived under a name that the log already holds gets
//! a second record of that name.

use crate::archive_log::{append_to_archive_log, log_contents, read_archive_log};
use crate::archiver::{log_path_of, move_request, record_of, Archiver};
use crate::classify::{filter_inactive_at, inactive_at};
use crate::config::SettingsView;
use crate::error::{Error, ErrorView};
use crate::io::{
    failure_of, unexpected_event, Action, ActionView, DirEntry, DirEntryView, Event, EventView,
};
use crate::models::{ArchivedRecord, ProjectView, RecordView, ScannedProject};
use crate::plan::{ActionPlan, PlanView};
use crate::scan::{
    find_next_candidate, first_probe, first_source, get_last_activity, next_candidate,
    probe_action, probe_request, probe_step, Probe, Source,
};
use crate::time::{utc_now, Timestamp};
use vstd::prelude::*;
use vstd::string::StringExecFns;

verus! {

/// Where an archive run stands.
#[derive(Debug)]
pub enum ArchiveRun {
    /// The projects directory is being listed.
    Listing { dry_run: bool },
    /// `source` is being asked about the entry at `cursor`; `found` holds
    /// the projects scanned before it.
    Probing {
        dry_run: bool,
        entries: Vec<DirEntry>,
        cursor: usize,
        source: Source,
        found: Vec<ScannedProject>,
    },
    /// The inactive project that follows the ones in `records` is being
    /// moved into the archive.
    Moving { plan: Vec<ActionPlan>, inactive: Vec<ScannedProject>, records: Vec<ArchivedRecord> },
    /// The archive log is being read, so that `records` can be added to it.
    ReadingLog { plan: Vec<ActionPlan>, records: Vec<ArchivedRecord> },
    /// The archive log is being written.
    WritingLog { plan: Vec<ActionPlan> },
    /// The run is over.
    Closed,
}

/// The mathematical value of an [`ArchiveRun`].
pub enum RunView {
    Listing { dry_run: bool },
    Probing {
        dry_run: bool,
        entries: Seq<DirEntryView>,
        cursor: int,
        source: Source,
        found: Seq<ProjectView>,
    },
    Moving { plan: Seq<PlanView>, inactive: Seq<ProjectView>, records: Seq<RecordView> },
    ReadingLog { plan: Seq<PlanView>, records: Seq<RecordView> },
    WritingLog { plan: Seq<PlanView> },
    Closed,
}

impl View for ArchiveRun {
    type V = RunView;

    open spec fn view(&self) -> RunView {
        match *self {
            ArchiveRun::Listing { dry_run } => RunView::Listing { dry_run },
            ArchiveRun::Probing { dry_run, entries, cursor, source, found } => RunView::Probing {
                dry_run,
                entries: entries.deep_view(),
                cursor: cursor as int,
                source,
                found: found.deep_view(),
            },
            ArchiveRun::Moving { plan, inactive, records } => RunView::Moving {
                plan: plan.deep_view(),
                inactive: inactive.deep_view(),
                records: records.deep_view(),
            },
            ArchiveRun::ReadingLog { plan, records } => RunView::ReadingLog {
                plan: plan.deep_view(),
                records: records.deep_view(),
            },
            ArchiveRun::WritingLog { plan } => RunView::WritingLog { plan: plan.deep_view() },
            ArchiveRun::Closed => RunView::Closed,
        }
    }
}

/// What a step of an archive run hands back: the next thing to do, or the
/// run's result.
#[derive(Debug)]
pub enum RunStep {
    /// Carry out this action and report the event.
    Do(Action),
    /// The run is over, with this plan or this error.
    Finished(Result<Vec<ActionPlan>, Error>),
}

/// The mathematical value of a [`RunStep`].
pub enum RunStepView {
    Do(ActionView),
    Finished(Result<Seq<PlanView>, ErrorView>),
}

impl View for RunStep {
    type V = RunStepView;

    open spec fn view(&self) -> RunStepView {
        match *self {
            RunStep::Do(action) => RunStepView::Do(action@),
            RunStep::Finished(Ok(plan)) => RunStepView::Finished(Ok(plan.deep_view())),
            RunStep::Finished(Err(e)) => RunStepView::Finished(Err(e@)),
        }
    }
}

/// The plan entry for an inactive project.
pub open spec fn plan_entry(project: ProjectView) -> PlanView {
    PlanView::Archive { project_name: project.name, path: project.path }
}

/// The plan for the inactive projects: one `Archive` entry each, in scan
/// order.
pub open spec fn plan_for(inactive: Seq<ProjectView>) -> Seq<PlanView> {
    inactive.map_values(|p: ProjectView| plan_entry(p))
}

/// A run that ends here with `error`.
pub open spec fn run_failed(error: ErrorView) -> (RunView, RunStepView) {
    (RunView::Closed, RunStepView::Finished(Err(error)))
}

/// The scan has looked at every entry: what the run does with the projects
/// it `found`.
///
/// With no inactive project the plan is the single entry `Nothing`. With
/// some, the plan has one `Archive` entry for each; a dry run ends there,
/// and any other run starts to move the first of them.
pub open spec fn conclude_scan(
    settings: SettingsView,
    dry_run: bool,
    found: Seq<ProjectView>,
    now: Timestamp,
) -> (RunView, RunStepView) {
    let inactive = inactive_at(found, now, settings.inactivity_days);
    if inactive.len() == 0 {
        (RunView::Closed, RunStepView::Finished(Ok(seq![PlanView::Nothing])))
    } else if dry_run {
        (RunView::Closed, RunStepView::Finished(Ok(plan_for(inactive))))
    } else {
        (
            RunView::Moving { plan: plan_for(inactive), inactive, records: Seq::empty() },
            RunStepView::Do(move_request(settings, inactive[0])),
        )
    }
}

/// The scan goes on with the first candidate among `entries` at or after
/// `from`, and concludes if there is none.
pub open spec fn resume_scan(
    settings: SettingsView,
    dry_run: bool,
    entries: Seq<DirEntryView>,
    from: int,
    found: Seq<ProjectView>,
    now: Timestamp,
) -> (RunView, RunStepView) {
    let cursor = next_candidate(settings, entries, from);
    if cursor < entries.len() {
        let source = first_source(entries[cursor]);
        (
            RunView::Probing { dry_run, entries, cursor, source, found },
            RunStepView::Do(probe_request(source, entries[cursor].path)),
        )
    } else {
        conclude_scan(settings, dry_run, found, now)
    }
}

/// The project that the entry is, with its last activity.
pub open spec fn scanned(entry: DirEntryView, last_activity: Timestamp) -> ProjectView {
    ProjectView { name: entry.name, path: entry.path, last_activity }
}

/// One step of an archive run: from where the run stands and what came of
/// its last request, to where it stands next and what it asks for or ends
/// with. `now` is the time of the step.
pub open spec fn run_step(settings: SettingsView, run: RunView, event: EventView, now: Timestamp) -> (
    RunView,
    RunStepView,
) {
    match run {
        RunView::Listing { dry_run } => match event {
            EventView::Entries(entries) => resume_scan(
                settings,
                dry_run,
                entries,
                0,
                Seq::empty(),
                now,
            ),
            other => run_failed(failure_of(other)),
        },
        RunView::Probing { dry_run, entries, cursor, source, found } => {
            if 0 <= cursor < entries.len() {
                match probe_step(source, event) {
                    Probe::Known(t) => resume_scan(
                        settings,
                        dry_run,
                        entries,
                        cursor + 1,
                        found.push(scanned(entries[cursor], t)),
                        now,
                    ),
                    Probe::Unknown => resume_scan(
                        settings,
                        dry_run,
                        entries,
                        cursor + 1,
                        found,
                        now,
                    ),
                    Probe::Ask(next) => (
                        RunView::Probing { dry_run, entries, cursor, source: next, found },
                        RunStepView::Do(probe_request(next, entries[cursor].path)),
                    ),
                }
            } else {
                run_failed(unexpected_event())
            }
        },
        RunView::Moving { plan, inactive, records } => {
            if records.len() < inactive.len() {
                match event {
                    EventView::Done => {
                        let moved = records.push(
                            record_of(settings, inactive[records.len() as int], now),
                        );
                        if moved.len() < inactive.len() {
                            (
                                RunView::Moving { plan, inactive, records: moved },
                                RunStepView::Do(
                                    move_request(settings, inactive[moved.len() as int]),
                                ),
                            )
                        } else {
                            (
                                RunView::ReadingLog { plan, records: moved },
                                RunStepView::Do(
                                    ActionView::ReadLog { path: log_path_of(settings) },
                                ),
                            )
                        }
                    },
                    other => run_failed(failure_of(other)),
                }
            } else {
                run_failed(unexpected_event())
            }
        },
        RunView::ReadingLog { plan, records } => match log_contents(event) {
            Ok(existing) => (
                RunView::WritingLog { plan },
                RunStepView::Do(
                    ActionView::WriteLog { path: log_path_of(settings), records: existing + records },
                ),
            ),
            Err(e) => run_failed(e),
        },
        RunView::WritingLog { plan } => match event {
            EventView::Done => (RunView::Closed, RunStepView::Finished(Ok(plan))),
            other => run_failed(failure_of(other)),
        },
        RunView::Closed => run_failed(unexpected_event()),
    }
}

/// The run ends with `error`.
fn failed(error: Error) -> (r: (ArchiveRun, RunStep))
    ensures
        (r.0@, r.1@) == run_failed(error@),
{
    (ArchiveRun::Closed, RunStep::Finished(Err(error)))
}

/// The run ends because the event does not answer its request.
fn unexpected() -> (r: (ArchiveRun, RunStep))
    ensures
        (r.0@, r.1@) == run_failed(unexpected_event()),
{
    failed(Error::Custom(String::from_str("Unexpected event")))
}

/// The plan for the inactive projects: see [`plan_for`].
pub fn plan_archive(inactive: &Vec<ScannedProject>) -> (plan: Vec<ActionPlan>)
    ensures
        plan.deep_view() == plan_for(inactive.deep_view()),
{
    let ghost views = inactive.deep_view();
    let mut plan: Vec<ActionPlan> = Vec::new();
    let mut i: usize = 0;
    while i < inactive.len()
        invariant
            i <= inactive.len(),
            views == inactive.deep_view(),
            plan.deep_view() == plan_for(views.take(i as int)),
        decreases inactive.len() - i,
    {
        let ghost before = plan.deep_view();
        plan.push(
            ActionPlan::Archive {
                project_name: inactive[i].name.clone(),
                path: inactive[i].path.clone(),
            },
        );
        proof {
            assert(views[i as int] == inactive[i as int]@);
            assert(plan.deep_view() =~= before.push(plan_entry(views[i as int])));
            assert(plan_for(views.take(i + 1)) =~= plan_for(views.take(i as int)).push(
                plan_entry(views[i as int]),
            ));
        }
        i += 1;
    }
    proof {
        assert(views.take(inactive.len() as int) =~= views);
    }
    plan
}

impl Archiver {
    /// The inactive ones among `projects` at `now`, under the archiver's
    /// threshold: those whose last activity is strictly more than
    /// `inactivity_days` days before `now`.
    pub fn filter_inactive_projects(&self, projects: Vec<ScannedProject>, now: Timestamp) -> (inactive:
        Vec<ScannedProject>)
        ensures
            inactive.deep_view() == inactive_at(
                projects.deep_view(),
                now,
                self@.inactivity_days,
            ),
    {
        filter_inactive_at(projects, now, self.settings().inactivity_days)
    }

    /// What the run does once the scan is complete: see [`conclude_scan`].
    fn conclude(&self, dry_run: bool, found: Vec<ScannedProject>, now: Timestamp) -> (r: (
        ArchiveRun,
        RunStep,
    ))
        ensures
            (r.0@, r.1@) == conclude_scan(self@, dry_run, found.deep_view(), now),
    {
        let inactive = self.filter_inactive_projects(found, now);
        if inactive.len() == 0 {
            let mut plan: Vec<ActionPlan> = Vec::new();
            plan.push(ActionPlan::Nothing);
            assert(plan.deep_view() =~= seq![PlanView::Nothing]);
            return (ArchiveRun::Closed, RunStep::Finished(Ok(plan)));
        }
        let plan = plan_archive(&inactive);
        if dry_run {
            (ArchiveRun::Closed, RunStep::Finished(Ok(plan)))
        } else {
            assert(inactive.deep_view()[0] == inactive[0]@);
            let action = self.archive_project(&inactive[0]);
            let records: Vec<ArchivedRecord> = Vec::new();
            assert(records.deep_view() =~= Seq::empty());
            (ArchiveRun::Moving { plan, inactive, records }, RunStep::Do(action))
        }
    }

    /// Goes on scanning at the entry `from`: asks about the next entry that
    /// is a project, or concludes the scan if none is left. See
    /// [`resume_scan`].
    fn scan_projects(
        &self,
        dry_run: bool,
        entries: Vec<DirEntry>,
        from: usize,
        found: Vec<ScannedProject>,
        now: Timestamp,
    ) -> (r: (ArchiveRun, RunStep))
        ensures
            (r.0@, r.1@) == resume_scan(
                self@,
                dry_run,
                entries.deep_view(),
                from as int,
                found.deep_view(),
                now,
            ),
    {
        let cursor = find_next_candidate(self.settings(), &entries, from);
        if cursor < entries.len() {
            assert(entries.deep_view()[cursor as int] == entries[cursor as int]@);
            let source = first_probe(&entries[cursor]);
            let action = probe_action(source, &entries[cursor].path);
            (ArchiveRun::Probing { dry_run, entries, cursor, source, found }, RunStep::Do(action))
        } else {
            self.conclude(dry_run, found, now)
        }
    }

    /// Starts an archive run. The run begins by asking for the entries of
    /// the projects directory; each answer goes to
    /// [`Archiver::continue_archive_process`] until that hands back
    /// [`RunStep::Finished`].
    ///
    /// A dry run asks only for what it needs to read, and ends with the plan
    /// that a real run would carry out.
    pub fn run_archive_process(&self, dry_run: bool) -> (r: (ArchiveRun, RunStep))
        ensures
            r.0@ == (RunView::Listing { dry_run }),
            r.1@ == RunStepView::Do(ActionView::ListProjects { dir: self@.projects_dir }),
    {
        let action = Action::ListProjects { dir: self.settings().projects_dir.clone() };
        (ArchiveRun::Listing { dry_run }, RunStep::Do(action))
    }

    /// One step of an archive run at the time `now`: see [`run_step`].
    pub fn continue_archive_process_at(&self, run: ArchiveRun, event: Event, now: Timestamp) -> (r: (
        ArchiveRun,
        RunStep,
    ))
        ensures
            (r.0@, r.1@) == run_step(self@, run@, event@, now),
    {
        match run {
            ArchiveRun::Listing { dry_run } => match event {
                Event::Entries(entries) => {
                    let found: Vec<ScannedProject> = Vec::new();
                    assert(found.deep_view() =~= Seq::empty());
                    self.scan_projects(dry_run, entries, 0, found, now)
                },
                Event::Failed(e) => failed(e),
                _ => unexpected(),
            },
            ArchiveRun::Probing { dry_run, entries, cursor, source, found } => {
                if cursor < entries.len() {
                    assert(entries.deep_view()[cursor as int] == entries[cursor as int]@);
                    match get_last_activity(source, &event) {
                        Probe::Known(last_activity) => {
                            let mut found = found;
                            let ghost before = found.deep_view();
                            let project = ScannedProject {
                                name: entries[cursor].name.clone(),
                                path: entries[cursor].path.clone(),
                                last_activity,
                            };
                            found.push(project);
                            assert(found.deep_view() =~= before.push(
                                scanned(entries[cursor as int]@, last_activity),
                            ));
                            self.scan_projects(dry_run, entries, cursor + 1, found, now)
                        },
                        Probe::Unknown => self.scan_projects(
                            dry_run,
                            entries,
                            cursor + 1,
                            found,
                            now,
                        ),
                        Probe::Ask(next) => {
                            let action = probe_action(next, &entries[cursor].path);
                            (
                                ArchiveRun::Probing { dry_run, entries, cursor, source: next, found },
                                RunStep::Do(action),
                            )
                        },
                    }
                } else {
                    unexpected()
                }
            },
            ArchiveRun::Moving { plan, inactive, records } => {
                if records.len() < inactive.len() {
                    match event {
                        Event::Done => {
                            let mut records = records;
                            let ghost before = records.deep_view();
                            assert(inactive.deep_view()[records.len() as int]
                                == inactive[records.len() as int]@);
                            let record = self.archived_record(&inactive[records.len()], now);
                            records.push(record);
                            assert(records.deep_view() =~= before.push(record@));
                            if records.len() < inactive.len() {
                                assert(inactive.deep_view()[records.len() as int]
                                    == inactive[records.len() as int]@);
                                let action = self.archive_project(&inactive[records.len()]);
                                (
                                    ArchiveRun::Moving { plan, inactive, records },
                                    RunStep::Do(action),
                                )
                            } else {
                                let action = self.read_log_request();
                                (ArchiveRun::ReadingLog { plan, records }, RunStep::Do(action))
                            }
                        },
                        Event::Failed(e) => failed(e),
                        _ => unexpected(),
                    }
                } else {
                    unexpected()
                }
            },
            ArchiveRun::ReadingLog { plan, records } => match read_archive_log(event) {
                Ok(existing) => {
                    let all = append_to_archive_log(existing, records);
                    let action = self.write_archive_log(all);
                    (ArchiveRun::WritingLog { plan }, RunStep::Do(action))
                },
                Err(e) => failed(e),
            },
            ArchiveRun::WritingLog { plan } => match event {
                Event::Done => (ArchiveRun::Closed, RunStep::Finished(Ok(plan))),
                Event::Failed(e) => failed(e),
                _ => unexpected(),
            },
            ArchiveRun::Closed => unexpected(),
        }
    }

    /// One step of an archive run, at the time that the system clock shows:
    /// what [`Archiver::continue_archive_process_at`] gives for that time.
    pub fn continue_archive_process(&self, run: ArchiveRun, event: Event) -> (r: (
        ArchiveRun,
        RunStep,
    ))
        ensures
            exists|now: Timestamp| (r.0@, r.1@) == #[trigger] run_step(self@, run@, event@, now),
    {
        let now = utc_now();
        let r = self.continue_archive_process_at(run, event, now);
        assert((r.0@, r.1@) == run_step(self@, run@, event@, now));
        r
    }
}

} // verus!
