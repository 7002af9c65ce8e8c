//! What holds of every archive run and of every restoration.

use crate::archive_log::{lemma_record_position, log_contents, record_position};
use crate::archiver::{destination_of, log_path_of, move_request, record_of};
use crate::classify::{inactive_at, is_inactive, law_inactive_exactly};
use crate::config::SettingsView;
use crate::error::ErrorView;
use crate::io::{ActionView, DirEntryView, EventView};
use crate::models::{ProjectView, RecordView};
use crate::paths::final_component;
use crate::plan::PlanView;
use crate::restore::{restore_step, Disposal, RestorationView, RestoreStepView};
use crate::run::{conclude_scan, plan_for, resume_scan, run_step, scanned, RunStepView, RunView};
use crate::scan::{is_candidate, lemma_next_candidate, probe_step, Probe, Source};
use crate::time::Timestamp;
use crate::whole_scan::asked_before;
use vstd::prelude::*;

verus! {

/// Whether a run may archive a project of this name: the name is not on the
/// exclusion list, and it is not the name of the archive directory.
pub open spec fn may_archive(settings: SettingsView, name: Seq<char>) -> bool {
    !settings.excludes(name) && final_component(settings.archive_dir) != Some(name)
}

/// Every project of the list may be archived.
pub open spec fn all_may_archive(settings: SettingsView, projects: Seq<ProjectView>) -> bool {
    forall|i: int| 0 <= i < projects.len() ==> may_archive(settings, #[trigger] projects[i].name)
}

/// Every `Archive` entry of the plan names a project that may be archived.
pub open spec fn plan_may_archive(settings: SettingsView, plan: Seq<PlanView>) -> bool {
    forall|i: int|
        0 <= i < plan.len() ==> (#[trigger] plan[i] matches PlanView::Archive { project_name, .. }
            ==> may_archive(settings, project_name))
}

/// What holds of an archive run wherever it stands.
///
/// While it scans, the entry it asks about is one that a scan looks into,
/// and every project found so far may be archived. While it moves, the
/// projects it moves are the ones of its plan, each may be archived, and
/// one record was made for each project moved so far.
pub open spec fn run_invariant(settings: SettingsView, run: RunView) -> bool {
    match run {
        RunView::Listing { .. } => true,
        RunView::Probing { entries, cursor, found, .. } => {
            &&& 0 <= cursor < entries.len()
            &&& is_candidate(settings, entries[cursor])
            &&& all_may_archive(settings, found)
        },
        RunView::Moving { plan, inactive, records } => {
            &&& records.len() < inactive.len()
            &&& plan == plan_for(inactive)
            &&& all_may_archive(settings, inactive)
            &&& forall|i: int|
                0 <= i < records.len() ==> (#[trigger] records[i]).name == inactive[i].name
        },
        RunView::ReadingLog { plan, records } => {
            &&& plan_may_archive(settings, plan)
            &&& forall|i: int|
                0 <= i < records.len() ==> may_archive(settings, (#[trigger] records[i]).name)
        },
        RunView::WritingLog { plan } => plan_may_archive(settings, plan),
        RunView::Closed => true,
    }
}

/// What holds of every step that an archive run hands back: a move takes
/// a project that may be archived to its place in the archive, and a plan
/// names only projects that may be archived.
pub open spec fn step_allowed(settings: SettingsView, step: RunStepView) -> bool {
    match step {
        RunStepView::Do(ActionView::MoveDir { from, to }) => exists|p: ProjectView|
            may_archive(settings, p.name) && #[trigger] move_request(settings, p) == (
            ActionView::MoveDir { from, to }),
        RunStepView::Do(_) => true,
        RunStepView::Finished(Ok(plan)) => plan_may_archive(settings, plan),
        RunStepView::Finished(Err(_)) => true,
    }
}

/// The plan for projects that may be archived names only such projects.
proof fn lemma_plan_may_archive(settings: SettingsView, inactive: Seq<ProjectView>)
    requires
        all_may_archive(settings, inactive),
    ensures
        plan_may_archive(settings, plan_for(inactive)),
{
    assert forall|i: int| 0 <= i < plan_for(inactive).len() implies (
    #[trigger] plan_for(inactive)[i] matches PlanView::Archive { project_name, .. }
        ==> may_archive(settings, project_name)) by {
        assert(may_archive(settings, inactive[i].name));
    }
}

/// The inactive ones among projects that may be archived may be archived.
proof fn lemma_inactive_may_archive(
    settings: SettingsView,
    found: Seq<ProjectView>,
    now: Timestamp,
)
    requires
        all_may_archive(settings, found),
    ensures
        all_may_archive(settings, inactive_at(found, now, settings.inactivity_days)),
{
    let pred = |p: ProjectView| is_inactive(p, now, settings.inactivity_days);
    let inactive = found.filter(pred);
    assert forall|i: int| 0 <= i < inactive.len() implies may_archive(
        settings,
        #[trigger] inactive[i].name,
    ) by {
        assert(inactive.contains(inactive[i]));
        found.lemma_filter_contains_rev(pred, inactive[i]);
        let j = choose|j: int| 0 <= j < found.len() && found[j] == inactive[i];
        assert(may_archive(settings, found[j].name));
    }
}

/// The end of a scan keeps the invariant.
proof fn lemma_conclude_scan(
    settings: SettingsView,
    dry_run: bool,
    found: Seq<ProjectView>,
    now: Timestamp,
)
    requires
        all_may_archive(settings, found),
    ensures
        run_invariant(settings, conclude_scan(settings, dry_run, found, now).0),
        step_allowed(settings, conclude_scan(settings, dry_run, found, now).1),
{
    let inactive = inactive_at(found, now, settings.inactivity_days);
    lemma_inactive_may_archive(settings, found, now);
    lemma_plan_may_archive(settings, inactive);
    if inactive.len() == 0 {
        assert(plan_may_archive(settings, seq![PlanView::Nothing]));
    } else if !dry_run {
        assert(may_archive(settings, inactive[0].name));
        assert(move_request(settings, inactive[0]) == conclude_scan(
            settings,
            dry_run,
            found,
            now,
        ).1->Do_0);
    }
}

/// Going on with a scan keeps the invariant.
proof fn lemma_resume_scan(
    settings: SettingsView,
    dry_run: bool,
    entries: Seq<DirEntryView>,
    from: int,
    found: Seq<ProjectView>,
    now: Timestamp,
)
    requires
        0 <= from <= entries.len(),
        all_may_archive(settings, found),
    ensures
        run_invariant(settings, resume_scan(settings, dry_run, entries, from, found, now).0),
        step_allowed(settings, resume_scan(settings, dry_run, entries, from, found, now).1),
{
    lemma_next_candidate(settings, entries, from);
    lemma_conclude_scan(settings, dry_run, found, now);
}

/// The state in which every archive run starts satisfies [`run_invariant`].
pub proof fn law_run_starts_within_invariant(settings: SettingsView, dry_run: bool)
    ensures
        run_invariant(settings, RunView::Listing { dry_run }),
{
}

/// An archive run keeps its invariant, whatever happens: from a state that
/// satisfies [`run_invariant`], every event at every time leads to a state
/// that satisfies it, and to a step that is [`step_allowed`].
///
/// So a project whose name is on the exclusion list is never moved into the
/// archive and never appears in a plan, however long it has been inactive;
/// nor is the archive directory itself.
pub proof fn law_run_keeps_invariant(
    settings: SettingsView,
    run: RunView,
    event: EventView,
    now: Timestamp,
)
    requires
        run_invariant(settings, run),
    ensures
        run_invariant(settings, run_step(settings, run, event, now).0),
        step_allowed(settings, run_step(settings, run, event, now).1),
{
    match run {
        RunView::Listing { dry_run } => {
            if let EventView::Entries(entries) = event {
                lemma_resume_scan(settings, dry_run, entries, 0, Seq::empty(), now);
            }
        },
        RunView::Probing { dry_run, entries, cursor, source, found } => {
            match probe_step(source, event) {
                Probe::Known(t) => {
                    let more = found.push(scanned(entries[cursor], t));
                    assert(all_may_archive(settings, more)) by {
                        assert forall|i: int| 0 <= i < more.len() implies may_archive(
                            settings,
                            #[trigger] more[i].name,
                        ) by {
                            if i < found.len() {
                                assert(more[i] == found[i]);
                            }
                        }
                    }
                    lemma_resume_scan(settings, dry_run, entries, cursor + 1, more, now);
                },
                Probe::Unknown => {
                    lemma_resume_scan(settings, dry_run, entries, cursor + 1, found, now);
                },
                Probe::Ask(_) => {},
            }
        },
        RunView::Moving { plan, inactive, records } => {
            if event is Done {
                let record = record_of(settings, inactive[records.len() as int], now);
                let moved = records.push(record);
                lemma_plan_may_archive(settings, inactive);
                if moved.len() < inactive.len() {
                    let next = inactive[moved.len() as int];
                    assert(may_archive(settings, next.name));
                    assert(move_request(settings, next) == run_step(
                        settings,
                        run,
                        event,
                        now,
                    ).1->Do_0);
                } else {
                    assert forall|i: int| 0 <= i < moved.len() implies may_archive(
                        settings,
                        (#[trigger] moved[i]).name,
                    ) by {
                        assert(moved[i].name == inactive[i].name);
                    }
                }
            }
        },
        RunView::ReadingLog { .. } => {},
        RunView::WritingLog { .. } => {},
        RunView::Closed => {},
    }
}

/// Where a run stands after it went through `events`, each with the time
/// at which it was handled, starting from `run`.
pub open spec fn run_after(
    settings: SettingsView,
    run: RunView,
    events: Seq<(EventView, Timestamp)>,
) -> RunView
    decreases events.len(),
{
    if events.len() == 0 {
        run
    } else {
        run_step(
            settings,
            run_after(settings, run, events.drop_last()),
            events.last().0,
            events.last().1,
        ).0
    }
}

/// What a run that started from `run` hands back for the last of `events`.
pub open spec fn run_answer(
    settings: SettingsView,
    run: RunView,
    events: Seq<(EventView, Timestamp)>,
) -> RunStepView
    recommends
        events.len() > 0,
{
    run_step(
        settings,
        run_after(settings, run, events.drop_last()),
        events.last().0,
        events.last().1,
    ).1
}

/// A project on the exclusion list is never archived, regardless of its
/// activity: whatever events an archive run meets, and at whatever times,
/// it never asks to move a project whose name is excluded, and never ends
/// with a plan that names one.
pub proof fn law_excluded_is_never_archived(
    settings: SettingsView,
    dry_run: bool,
    events: Seq<(EventView, Timestamp)>,
)
    ensures
        run_invariant(settings, run_after(settings, RunView::Listing { dry_run }, events)),
        events.len() > 0 ==> step_allowed(
            settings,
            run_answer(settings, RunView::Listing { dry_run }, events),
        ),
    decreases events.len(),
{
    if events.len() > 0 {
        law_excluded_is_never_archived(settings, dry_run, events.drop_last());
        law_run_keeps_invariant(
            settings,
            run_after(settings, RunView::Listing { dry_run }, events.drop_last()),
            events.last().0,
            events.last().1,
        );
    }
}

/// Whether a run in this state is a dry run that has not ended, or a run
/// that has ended.
pub open spec fn is_dry(run: RunView) -> bool {
    match run {
        RunView::Listing { dry_run } => dry_run,
        RunView::Probing { dry_run, .. } => dry_run,
        RunView::Closed => true,
        _ => false,
    }
}

/// A dry run changes nothing: whatever events it meets, it never asks to
/// move or remove a directory or to write the archive log.
pub proof fn law_dry_run_changes_nothing(
    settings: SettingsView,
    events: Seq<(EventView, Timestamp)>,
)
    ensures
        is_dry(run_after(settings, RunView::Listing { dry_run: true }, events)),
        events.len() > 0 ==> !(run_answer(
            settings,
            RunView::Listing { dry_run: true },
            events,
        ) matches RunStepView::Do(action) && action.mutates()),
    decreases events.len(),
{
    if events.len() > 0 {
        law_dry_run_changes_nothing(settings, events.drop_last());
    }
}

/// A repository without a single commit does not stop the run, and neither
/// does any other answer about a project: while a run scans, no event makes
/// it end with an error. After the answer that the repository has no commit
/// on any local branch, the run asks for the modification times of the
/// same directory.
pub proof fn law_scan_survives_every_answer(
    settings: SettingsView,
    dry_run: bool,
    entries: Seq<DirEntryView>,
    cursor: int,
    source: Source,
    found: Seq<ProjectView>,
    event: EventView,
    now: Timestamp,
)
    requires
        0 <= cursor < entries.len(),
    ensures
        !(run_step(
            settings,
            RunView::Probing { dry_run, entries, cursor, source, found },
            event,
            now,
        ).1 matches RunStepView::Finished(Err(_))),
        run_step(
            settings,
            RunView::Probing { dry_run, entries, cursor, source: Source::Repository, found },
            EventView::BranchTips(Seq::empty()),
            now,
        ) == (
            RunView::Probing { dry_run, entries, cursor, source: Source::Files, found },
            RunStepView::Do(ActionView::ReadFileTimes { dir: entries[cursor].path }),
        ),
{
}

/// A project whose last activity no source can tell is skipped: the scan
/// goes on with the next entry, and the projects found so far are the same.
/// So it is in no plan, is not moved, and gets no record in the log.
pub proof fn law_unknown_activity_is_skipped(
    settings: SettingsView,
    dry_run: bool,
    entries: Seq<DirEntryView>,
    cursor: int,
    source: Source,
    found: Seq<ProjectView>,
    event: EventView,
    now: Timestamp,
)
    requires
        0 <= cursor < entries.len(),
        probe_step(source, event) == Probe::Unknown,
    ensures
        run_step(
            settings,
            RunView::Probing { dry_run, entries, cursor, source, found },
            event,
            now,
        ) == resume_scan(settings, dry_run, entries, cursor + 1, found, now),
{
}

/// A project that was active within the threshold is in no plan: the plan
/// that a scan concludes with has an `Archive` entry for a project exactly
/// if the project was found and is inactive, and no move is asked for
/// any other.
pub proof fn law_plan_is_exactly_the_inactive(
    settings: SettingsView,
    dry_run: bool,
    found: Seq<ProjectView>,
    now: Timestamp,
)
    ensures
        ({
            let inactive = inactive_at(found, now, settings.inactivity_days);
            let end = conclude_scan(settings, dry_run, found, now);
            &&& inactive.len() == 0 ==> end.1 == RunStepView::Finished(
                Ok(seq![PlanView::Nothing]),
            )
            &&& inactive.len() > 0 && dry_run ==> end.1 == RunStepView::Finished(
                Ok(plan_for(inactive)),
            )
            &&& inactive.len() > 0 && !dry_run ==> end.0 == (RunView::Moving {
                plan: plan_for(inactive),
                inactive,
                records: Seq::empty(),
            })
            &&& forall|p: ProjectView|
                inactive.contains(p) <==> found.contains(p) && #[trigger] is_inactive(
                    p,
                    now,
                    settings.inactivity_days,
                )
        }),
{
    assert forall|p: ProjectView|
        inactive_at(found, now, settings.inactivity_days).contains(p) <==> found.contains(p)
            && #[trigger] is_inactive(p, now, settings.inactivity_days) by {
        law_inactive_exactly(found, now, settings.inactivity_days, p);
    }
}

/// A log that does not decode is never overwritten. Whichever operation
/// reads it ends at once with the error `Json`, and an operation that has
/// ended asks for nothing more.
pub proof fn law_corrupt_log_is_left_alone(
    settings: SettingsView,
    plan: Seq<PlanView>,
    records: Seq<RecordView>,
    disposal: Disposal,
    target: Option<Seq<char>>,
    why: Seq<char>,
    event: EventView,
    now: Timestamp,
)
    ensures
        log_contents(EventView::LogCorrupt(why)) == Err::<Seq<RecordView>, ErrorView>(
            ErrorView::Json(why),
        ),
        run_step(
            settings,
            RunView::ReadingLog { plan, records },
            EventView::LogCorrupt(why),
            now,
        ) == (RunView::Closed, RunStepView::Finished(Err(ErrorView::Json(why)))),
        restore_step(
            settings,
            RestorationView::ReadingLog { disposal, target },
            EventView::LogCorrupt(why),
        ) == (RestorationView::Closed, RestoreStepView::Finished(Err(ErrorView::Json(why)))),
        run_step(settings, RunView::Closed, event, now).0 == RunView::Closed,
        run_step(settings, RunView::Closed, event, now).1 is Finished,
        restore_step(settings, RestorationView::Closed, event).0 == RestorationView::Closed,
        restore_step(settings, RestorationView::Closed, event).1 is Finished,
{
}

/// Restoring undoes archiving. Let a run archive `project` at `now` when
/// the log holds `log`, in which no record has the project's name. Then the
/// run moves the project to its place in the archive and writes the log
/// with one record more; and restoring the project by its name moves it
/// from that place back to its original path, writes the log as `log`, so
/// that no trace of the project is left in it, and ends having restored one
/// project.
pub proof fn law_restore_undoes_archive(
    settings: SettingsView,
    project: ProjectView,
    log: Seq<RecordView>,
    now: Timestamp,
)
    requires
        record_position(log, project.name).is_none(),
    ensures
        ({
            let plan = plan_for(seq![project]);
            let archived = run_step(
                settings,
                RunView::Moving { plan, inactive: seq![project], records: Seq::empty() },
                EventView::Done,
                now,
            );
            let logged = run_step(settings, archived.0, EventView::LogRecords(log), now);
            let written = log.push(record_of(settings, project, now));
            let begun = restore_step(
                settings,
                RestorationView::ReadingLog {
                    disposal: Disposal::Restore,
                    target: Some(project.name),
                },
                EventView::LogRecords(written),
            );
            let moved_back = restore_step(settings, begun.0, EventView::Done);
            let ended = restore_step(settings, moved_back.0, EventView::Done);
            &&& move_request(settings, project) == (ActionView::MoveDir {
                from: project.path,
                to: destination_of(settings, project),
            })
            &&& archived.1 == RunStepView::Do(ActionView::ReadLog { path: log_path_of(settings) })
            &&& logged.1 == RunStepView::Do(
                ActionView::WriteLog { path: log_path_of(settings), records: written },
            )
            &&& begun.1 == RestoreStepView::Do(
                ActionView::MoveDir { from: destination_of(settings, project), to: project.path },
            )
            &&& moved_back.1 == RestoreStepView::Do(
                ActionView::WriteLog { path: log_path_of(settings), records: log },
            )
            &&& ended == (RestorationView::Closed, RestoreStepView::Finished(Ok(1usize)))
        }),
{
    let record = record_of(settings, project, now);
    let written = log.push(record);
    lemma_record_position(log, project.name);
    lemma_record_position(written, project.name);
    assert(written[log.len() as int] == record);
    assert(record_position(written, project.name) == Some(log.len() as int)) by {
        let at = record_position(written, project.name);
        if at is Some {
            if at->0 < log.len() {
                assert(written[at->0] == log[at->0]);
            }
        }
    }
    assert(written.remove(log.len() as int) =~= log);
    assert(Seq::<RecordView>::empty().push(record) =~= seq![record]);
    assert(log + seq![record] =~= written);
}

/// Whether the state is one that an archive run can be in: while it scans
/// it stands at an entry of the listing, and while it moves there is a
/// project left to move.
pub open spec fn well_formed(run: RunView) -> bool {
    match run {
        RunView::Probing { entries, cursor, .. } => 0 <= cursor < entries.len(),
        RunView::Moving { inactive, records, .. } => records.len() < inactive.len(),
        _ => true,
    }
}

/// A bound on the number of steps that a run in this state still takes,
/// once the projects directory is listed.
pub open spec fn steps_left(run: RunView) -> int {
    match run {
        RunView::Listing { .. } => 0,
        RunView::Probing { entries, cursor, source, found, .. } => 4 * (entries.len() - cursor)
            - asked_before(source) + found.len() + 4,
        RunView::Moving { inactive, records, .. } => inactive.len() - records.len() + 2,
        RunView::ReadingLog { .. } => 2,
        RunView::WritingLog { .. } => 1,
        RunView::Closed => 0,
    }
}

/// A scan that goes on at the entry `from` is well formed and has no more
/// than `4 * (entries.len() - from) + found.len() + 4` steps left.
proof fn lemma_resumed_steps(
    settings: SettingsView,
    dry_run: bool,
    entries: Seq<DirEntryView>,
    from: int,
    found: Seq<ProjectView>,
    now: Timestamp,
)
    requires
        0 <= from <= entries.len(),
    ensures
        ({
            let resumed = resume_scan(settings, dry_run, entries, from, found, now);
            resumed.1 is Do ==> {
                &&& well_formed(resumed.0)
                &&& resumed.0 is Probing || resumed.0 is Moving
                &&& 0 < steps_left(resumed.0) <= 4 * (entries.len() - from) + found.len() + 4
            }
        }),
{
    lemma_next_candidate(settings, entries, from);
    found.lemma_filter_len(|p: ProjectView| is_inactive(p, now, settings.inactivity_days));
}

/// An archive run comes to an end, whatever the disk answers. The listing
/// of `n` entries leaves at most `4 * n + 4` steps, and every step after it
/// either finishes the run or leaves fewer steps than there were: no more
/// than three questions are put about an entry, each inactive project is
/// moved once, and the log is read once and written once.
pub proof fn law_run_comes_to_an_end(
    settings: SettingsView,
    run: RunView,
    event: EventView,
    now: Timestamp,
)
    requires
        well_formed(run),
    ensures
        ({
            let next = run_step(settings, run, event, now);
            next.1 is Do ==> {
                &&& well_formed(next.0)
                &&& !(next.0 is Listing) && !(next.0 is Closed)
                &&& 0 < steps_left(next.0)
                &&& !(run is Listing) ==> steps_left(next.0) < steps_left(run)
                &&& event matches EventView::Entries(entries) ==> (run is Listing ==> steps_left(
                    next.0,
                ) <= 4 * entries.len() + 4)
            }
        }),
{
    match run {
        RunView::Listing { dry_run } => {
            if let EventView::Entries(entries) = event {
                lemma_resumed_steps(settings, dry_run, entries, 0, Seq::empty(), now);
            }
        },
        RunView::Probing { dry_run, entries, cursor, source, found } => {
            match probe_step(source, event) {
                Probe::Known(t) => {
                    lemma_resumed_steps(
                        settings,
                        dry_run,
                        entries,
                        cursor + 1,
                        found.push(scanned(entries[cursor], t)),
                        now,
                    );
                },
                Probe::Unknown => {
                    lemma_resumed_steps(settings, dry_run, entries, cursor + 1, found, now);
                },
                Probe::Ask(_) => {},
            }
        },
        _ => {},
    }
}

/// A bound on the number of steps that a restoration in this state still
/// takes, once the log is read.
pub open spec fn restoration_steps_left(state: RestorationView) -> int {
    match state {
        RestorationView::ReadingLog { .. } => 0,
        RestorationView::Disposing { all, records, .. } => if all {
            2 * (records.len() as int)
        } else {
            2
        },
        RestorationView::WritingLog { all, remaining, .. } => if all {
            2 * (remaining.len() as int) + 1
        } else {
            1
        },
        RestorationView::Closed => 0,
    }
}

/// A restoration comes to an end, whatever the disk answers. A log of `n`
/// records leaves at most `2 * n` steps, and every step after the log is
/// read either finishes the operation or leaves fewer steps than there
/// were: each project is moved or removed once, and the log is written once
/// after each.
pub proof fn law_restoration_comes_to_an_end(
    settings: SettingsView,
    state: RestorationView,
    event: EventView,
)
    requires
        state matches RestorationView::Disposing { all, records, index, .. } ==> (0 <= index
            < records.len() && (all ==> index == 0)),
    ensures
        ({
            let next = restore_step(settings, state, event);
            next.1 is Do ==> {
                &&& next.0 matches RestorationView::Disposing { all, records, index, .. } ==> (0
                    <= index < records.len() && (all ==> index == 0))
                &&& !(next.0 is ReadingLog) && !(next.0 is Closed)
                &&& 0 < restoration_steps_left(next.0)
                &&& !(state is ReadingLog) ==> restoration_steps_left(next.0)
                    < restoration_steps_left(state)
                &&& log_contents(event) matches Ok(records) ==> (state is ReadingLog
                    ==> restoration_steps_left(next.0) <= 2 * records.len())
            }
        }),
{
    if let RestorationView::ReadingLog { target: Some(name), .. } = state {
        if let Ok(records) = log_contents(event) {
            lemma_record_position(records, name);
        }
    }
}

} // verus!
