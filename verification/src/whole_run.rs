//! What a whole archive run comes to on a disk that answers every request.
//!
//! A run is a conversation; this module says how it ends. The disk's side
//! of the conversation is fixed in advance, as a [`Disk`]: what it answers
//! to each request, and what the clock shows when it matters. [`run_on`]
//! plays the run against it; [`run_outcome`] says in one expression what the
//! run ends with, and [`run_changes`] what it asks to change on the way.
//!
//! A run puts each of its requests at most once, so a [`Disk`] can stand
//! for anything that a file system may answer in the course of one run.

use crate::archive_log::log_contents;
use crate::archiver::{log_path_of, move_request, record_of};
use crate::classify::{inactive_at, is_inactive};
use crate::config::SettingsView;
use crate::error::ErrorView;
use crate::io::{failure_of, unexpected_event, ActionView, DirEntryView, EventView};
use crate::laws::steps_left;
use crate::models::{ProjectView, RecordView};
use crate::plan::PlanView;
use crate::run::{plan_for, resume_scan, run_step, scanned, RunStepView, RunView};
use crate::scan::{
    first_source, lemma_next_candidate, next_candidate, probe_step, Probe, Source,
};
use crate::time::Timestamp;
use crate::whole_scan::{
    activity_from, last_activity, lemma_scan_result_skips, scan_result, Answers,
};
use vstd::prelude::*;

verus! {

/// What the disk answers to every request of one archive run.
pub struct Disk {
    /// The answer to the request to list the projects directory.
    pub listing: EventView,
    /// The answers to the questions about each listed entry, in the order
    /// of the listing.
    pub answers: Seq<Answers>,
    /// What comes of each move into the archive, in the order of the moves.
    pub moves: Seq<EventView>,
    /// The answer to the request to read the archive log.
    pub log: EventView,
    /// What comes of writing the archive log.
    pub written: EventView,
    /// What the clock shows when the scan is over and the inactive projects
    /// are picked.
    pub scanned_at: Timestamp,
    /// What the clock shows when each move is reported, in the order of the
    /// moves.
    pub moved_at: Seq<Timestamp>,
}

impl Disk {
    /// The disk's answer to the request that a run in this state waits for.
    pub open spec fn respond(self, run: RunView) -> EventView {
        match run {
            RunView::Listing { .. } => self.listing,
            RunView::Probing { cursor, source, .. } => self.answers[cursor].to(source),
            RunView::Moving { records, .. } => self.moves[records.len() as int],
            RunView::ReadingLog { .. } => self.log,
            RunView::WritingLog { .. } => self.written,
            RunView::Closed => EventView::Done,
        }
    }

    /// The time of the step that a run in this state takes next. A step
    /// looks at the time only where it ends the scan or records a move: so
    /// these times stand for whatever the clock shows during a run.
    pub open spec fn time(self, run: RunView) -> Timestamp {
        match run {
            RunView::Moving { records, .. } => self.moved_at[records.len() as int],
            _ => self.scanned_at,
        }
    }
}

/// The steps that a run hands back from the state `run` on, when the disk
/// answers each request and tells the time of each step: at most `fuel` of
/// them, up to the one that finishes the run.
pub open spec fn run_on(settings: SettingsView, disk: Disk, run: RunView, fuel: nat) -> Seq<
    RunStepView,
>
    decreases fuel,
{
    if fuel == 0 {
        Seq::empty()
    } else {
        let next = run_step(settings, run, disk.respond(run), disk.time(run));
        if next.1 is Finished {
            seq![next.1]
        } else {
            seq![next.1] + run_on(settings, disk, next.0, (fuel - 1) as nat)
        }
    }
}

/// The first move from the `from`-th up to but without the `to`-th that
/// does not succeed, if there is one.
pub open spec fn first_failed_move(moves: Seq<EventView>, from: int, to: int) -> Option<int>
    decreases to - from,
{
    if from >= to {
        None
    } else if moves[from] is Done {
        first_failed_move(moves, from + 1, to)
    } else {
        Some(from)
    }
}

/// How a run with this plan ends once the log is being written.
pub open spec fn after_write(disk: Disk, plan: Seq<PlanView>) -> Result<Seq<PlanView>, ErrorView> {
    match disk.written {
        EventView::Done => Ok(plan),
        other => Err(failure_of(other)),
    }
}

/// How a run with this plan ends once all its moves are done: a log that
/// cannot be read or does not decode fails the run before anything is
/// written.
pub open spec fn after_moves(disk: Disk, plan: Seq<PlanView>) -> Result<Seq<PlanView>, ErrorView> {
    match log_contents(disk.log) {
        Ok(_) => after_write(disk, plan),
        Err(e) => Err(e),
    }
}

/// How a run with this plan ends when `moved` of its `total` moves are
/// done: the first move that fails ends it with that failure.
pub open spec fn while_moving(disk: Disk, plan: Seq<PlanView>, moved: int, total: int) -> Result<
    Seq<PlanView>,
    ErrorView,
> {
    match first_failed_move(disk.moves, moved, total) {
        Some(k) => Err(failure_of(disk.moves[k])),
        None => after_moves(disk, plan),
    }
}

/// How a run ends that has found the projects `found`.
///
/// With no inactive project among them the plan is the single entry
/// `Nothing`. A dry run ends with the plan for the inactive ones. Any other
/// run moves them, reads the log and writes it, and ends with the plan if
/// all of that succeeds, and with the first failure if not.
pub open spec fn after_scan(
    settings: SettingsView,
    disk: Disk,
    dry_run: bool,
    found: Seq<ProjectView>,
) -> Result<Seq<PlanView>, ErrorView> {
    let inactive = inactive_at(found, disk.scanned_at, settings.inactivity_days);
    if inactive.len() == 0 {
        Ok(seq![PlanView::Nothing])
    } else if dry_run {
        Ok(plan_for(inactive))
    } else {
        while_moving(disk, plan_for(inactive), 0, inactive.len() as int)
    }
}

/// What a whole archive run ends with on this disk.
///
/// A projects directory that cannot be listed fails the run. Otherwise the
/// projects are those of [`scan_result`], and the run ends as
/// [`after_scan`] says.
pub open spec fn run_outcome(settings: SettingsView, disk: Disk, dry_run: bool) -> Result<
    Seq<PlanView>,
    ErrorView,
> {
    match disk.listing {
        EventView::Entries(entries) => after_scan(
            settings,
            disk,
            dry_run,
            scan_result(settings, entries, disk.answers, 0),
        ),
        other => Err(failure_of(other)),
    }
}

/// The projects that a scan will have found in the end, when it stands at
/// the entry at `cursor` and asks `source` about it.
pub open spec fn found_in_the_end(
    settings: SettingsView,
    disk: Disk,
    entries: Seq<DirEntryView>,
    cursor: int,
    source: Source,
    found: Seq<ProjectView>,
) -> Seq<ProjectView> {
    found + match activity_from(source, disk.answers[cursor]) {
        Some(t) => seq![scanned(entries[cursor], t)],
        None => Seq::empty(),
    } + scan_result(settings, entries, disk.answers, cursor + 1)
}

/// What a run that stands at `run` ends with on this disk.
pub open spec fn outcome_from(settings: SettingsView, disk: Disk, run: RunView) -> Result<
    Seq<PlanView>,
    ErrorView,
> {
    match run {
        RunView::Listing { dry_run } => run_outcome(settings, disk, dry_run),
        RunView::Probing { dry_run, entries, cursor, source, found } => after_scan(
            settings,
            disk,
            dry_run,
            found_in_the_end(settings, disk, entries, cursor, source, found),
        ),
        RunView::Moving { plan, inactive, records } => while_moving(
            disk,
            plan,
            records.len() as int,
            inactive.len() as int,
        ),
        RunView::ReadingLog { plan, .. } => after_moves(disk, plan),
        RunView::WritingLog { plan } => after_write(disk, plan),
        RunView::Closed => Err(unexpected_event()),
    }
}

/// The disk has an answer for every question that a run in this state can
/// still ask, and the state is one that a run can be in.
pub open spec fn fits(settings: SettingsView, disk: Disk, run: RunView) -> bool {
    match run {
        RunView::Listing { .. } => disk.listing matches EventView::Entries(entries)
            ==> disk.answers.len() == entries.len(),
        RunView::Probing { entries, cursor, .. } => {
            &&& 0 <= cursor < entries.len()
            &&& disk.answers.len() == entries.len()
        },
        RunView::Moving { plan, inactive, records } => records.len() < inactive.len(),
        _ => true,
    }
}

/// A bound on the number of steps that a run in this state still takes on
/// this disk.
pub open spec fn steps_on(disk: Disk, run: RunView) -> int {
    match run {
        RunView::Listing { .. } => match disk.listing {
            EventView::Entries(entries) => 4 * (entries.len() as int) + 5,
            _ => 1,
        },
        _ => steps_left(run),
    }
}

/// A scan that goes on at the entry `from` ends as one that has found
/// `found` and the projects among the entries at and after `from`, and it
/// takes no more than `4 * (entries.len() - from) + found.len() + 4` steps.
proof fn lemma_resumed(
    settings: SettingsView,
    disk: Disk,
    dry_run: bool,
    entries: Seq<DirEntryView>,
    from: int,
    found: Seq<ProjectView>,
)
    requires
        0 <= from <= entries.len(),
        disk.answers.len() == entries.len(),
    ensures
        ({
            let resumed = resume_scan(settings, dry_run, entries, from, found, disk.scanned_at);
            let all = found + scan_result(settings, entries, disk.answers, from);
            &&& fits(settings, disk, resumed.0)
            &&& resumed.1 matches RunStepView::Finished(r) ==> r == after_scan(
                settings,
                disk,
                dry_run,
                all,
            )
            &&& resumed.1 is Do ==> outcome_from(settings, disk, resumed.0) == after_scan(
                settings,
                disk,
                dry_run,
                all,
            ) && 0 < steps_on(disk, resumed.0) <= 4 * (entries.len() - from) + found.len() + 4
        }),
{
    let cursor = next_candidate(settings, entries, from);
    lemma_next_candidate(settings, entries, from);
    lemma_scan_result_skips(settings, entries, disk.answers, from);
    if cursor < entries.len() {
        let source = first_source(entries[cursor]);
        let head = match last_activity(entries[cursor].has_git_dir, disk.answers[cursor]) {
            Some(t) => seq![scanned(entries[cursor], t)],
            None => Seq::empty(),
        };
        assert(activity_from(source, disk.answers[cursor]) == last_activity(
            entries[cursor].has_git_dir,
            disk.answers[cursor],
        ));
        assert(scan_result(settings, entries, disk.answers, cursor) =~= head + scan_result(
            settings,
            entries,
            disk.answers,
            cursor + 1,
        ));
        assert(found_in_the_end(settings, disk, entries, cursor, source, found) =~= found
            + scan_result(settings, entries, disk.answers, from));
    } else {
        assert(scan_result(settings, entries, disk.answers, cursor) =~= Seq::empty());
        assert(found + scan_result(settings, entries, disk.answers, from) =~= found);
        found.lemma_filter_len(
            |p: ProjectView| is_inactive(p, disk.scanned_at, settings.inactivity_days),
        );
    }
}

/// One step of a run on a disk: the step either finishes the run with what
/// the state promised, or leads to a state that promises the same and is
/// closer to the end.
proof fn lemma_step(settings: SettingsView, disk: Disk, run: RunView)
    requires
        fits(settings, disk, run),
        !(run is Closed),
    ensures
        ({
            let next = run_step(settings, run, disk.respond(run), disk.time(run));
            &&& next.1 matches RunStepView::Finished(r) ==> r == outcome_from(settings, disk, run)
            &&& next.1 is Do ==> {
                &&& fits(settings, disk, next.0)
                &&& !(next.0 is Closed)
                &&& outcome_from(settings, disk, next.0) == outcome_from(settings, disk, run)
                &&& 0 < steps_on(disk, next.0) < steps_on(disk, run)
            }
        }),
{
    let next = run_step(settings, run, disk.respond(run), disk.time(run));
    match run {
        RunView::Listing { dry_run } => {
            if let EventView::Entries(entries) = disk.listing {
                lemma_resumed(settings, disk, dry_run, entries, 0, Seq::empty());
                assert(Seq::<ProjectView>::empty() + scan_result(
                    settings,
                    entries,
                    disk.answers,
                    0,
                ) =~= scan_result(settings, entries, disk.answers, 0));
            }
        },
        RunView::Probing { dry_run, entries, cursor, source, found } => {
            let rest = scan_result(settings, entries, disk.answers, cursor + 1);
            match probe_step(source, disk.answers[cursor].to(source)) {
                Probe::Ask(then) => {
                    assert(activity_from(then, disk.answers[cursor]) == activity_from(
                        source,
                        disk.answers[cursor],
                    ));
                },
                Probe::Known(t) => {
                    let more = found.push(scanned(entries[cursor], t));
                    assert(activity_from(source, disk.answers[cursor]) == Some(t));
                    assert(found + seq![scanned(entries[cursor], t)] + rest =~= more + rest);
                    lemma_resumed(settings, disk, dry_run, entries, cursor + 1, more);
                },
                Probe::Unknown => {
                    assert(activity_from(source, disk.answers[cursor]).is_none());
                    assert(found + Seq::<ProjectView>::empty() + rest =~= found + rest);
                    lemma_resumed(settings, disk, dry_run, entries, cursor + 1, found);
                },
            }
        },
        RunView::Moving { plan, inactive, records } => {
            let moved = records.len() as int;
            let total = inactive.len() as int;
            assert(first_failed_move(disk.moves, moved, total) == if disk.moves[moved] is Done {
                first_failed_move(disk.moves, moved + 1, total)
            } else {
                Some(moved)
            });
        },
        RunView::ReadingLog { .. } => {},
        RunView::WritingLog { .. } => {},
        RunView::Closed => {},
    }
}

/// A run on a disk ends as its state promises, within the steps that the
/// state allows.
proof fn lemma_run_on(settings: SettingsView, disk: Disk, run: RunView, fuel: nat)
    requires
        fits(settings, disk, run),
        !(run is Closed),
        fuel >= steps_on(disk, run),
        0 < steps_on(disk, run),
    ensures
        run_on(settings, disk, run, fuel).len() > 0,
        run_on(settings, disk, run, fuel).last() == RunStepView::Finished(
            outcome_from(settings, disk, run),
        ),
        forall|i: int|
            0 <= i < run_on(settings, disk, run, fuel).len() - 1 ==> (#[trigger] run_on(
                settings,
                disk,
                run,
                fuel,
            )[i]) is Do,
    decreases fuel,
{
    let next = run_step(settings, run, disk.respond(run), disk.time(run));
    lemma_step(settings, disk, run);
    if next.1 is Do {
        lemma_run_on(settings, disk, next.0, (fuel - 1) as nat);
    }
}

/// An archive run ends with [`run_outcome`]. Started on a disk that has an
/// answer about every entry it lists, and given enough steps, the run hands
/// back requests until it finishes, and it finishes with what `run_outcome`
/// says of the settings and the disk.
pub proof fn law_run_ends_with_its_outcome(
    settings: SettingsView,
    disk: Disk,
    dry_run: bool,
    fuel: nat,
)
    requires
        disk.listing matches EventView::Entries(entries) ==> disk.answers.len() == entries.len(),
        fuel >= steps_on(disk, RunView::Listing { dry_run }),
    ensures
        ({
            let steps = run_on(settings, disk, RunView::Listing { dry_run }, fuel);
            &&& steps.len() > 0
            &&& steps.last() == RunStepView::Finished(run_outcome(settings, disk, dry_run))
            &&& forall|i: int| 0 <= i < steps.len() - 1 ==> (#[trigger] steps[i]) is Do
        }),
{
    lemma_run_on(settings, disk, RunView::Listing { dry_run }, fuel);
}

/// The changes to the disk among `steps`, in their order: the requests to
/// move or remove a directory and to write the archive log.
pub open spec fn changes_in(steps: Seq<RunStepView>) -> Seq<ActionView>
    decreases steps.len(),
{
    if steps.len() == 0 {
        Seq::empty()
    } else {
        change_of(steps[0]) + changes_in(steps.drop_first())
    }
}

/// The change that this step asks for, if it asks for one.
pub open spec fn change_of(step: RunStepView) -> Seq<ActionView> {
    match step {
        RunStepView::Do(action) => if action.mutates() {
            seq![action]
        } else {
            Seq::empty()
        },
        RunStepView::Finished(_) => Seq::empty(),
    }
}

/// The requests that move `projects` into the archive, one for each.
pub open spec fn moves_of(settings: SettingsView, projects: Seq<ProjectView>) -> Seq<ActionView> {
    projects.map_values(|p: ProjectView| move_request(settings, p))
}

/// The log records of the inactive projects from the `from`-th up to but
/// without the `to`-th, each archived at the time at which its move was
/// reported.
pub open spec fn records_of(
    settings: SettingsView,
    disk: Disk,
    inactive: Seq<ProjectView>,
    from: int,
    to: int,
) -> Seq<RecordView> {
    Seq::new(
        (to - from) as nat,
        |i: int| record_of(settings, inactive[from + i], disk.moved_at[from + i]),
    )
}

/// How many moves are asked for in all, from the first move of the run, when
/// the moves before the `from`-th succeeded and there are `to` projects to
/// move: all `to`, or those up to and with the first that fails.
pub open spec fn moves_asked(moves: Seq<EventView>, from: int, to: int) -> int {
    match first_failed_move(moves, from, to) {
        Some(k) => k + 1,
        None => to,
    }
}

/// The write of the log that follows the moves: the records that the log
/// holds, then `records`. There is none where the log cannot be read.
pub open spec fn log_write(settings: SettingsView, disk: Disk, records: Seq<RecordView>) -> Seq<
    ActionView,
> {
    match log_contents(disk.log) {
        Ok(existing) => seq![
            ActionView::WriteLog { path: log_path_of(settings), records: existing + records },
        ],
        Err(_) => Seq::empty(),
    }
}

/// The changes that a run asks for once it has found the projects `found`.
///
/// A dry run asks for none, and neither does a run without inactive
/// projects. Any other run asks to move the inactive projects into the
/// archive, in scan order, until a move fails. If none fails it asks to
/// write the log once, with one new record for each inactive project after
/// the records that the log held.
pub open spec fn changes_after_scan(
    settings: SettingsView,
    disk: Disk,
    dry_run: bool,
    found: Seq<ProjectView>,
) -> Seq<ActionView> {
    let inactive = inactive_at(found, disk.scanned_at, settings.inactivity_days);
    if inactive.len() == 0 || dry_run {
        Seq::empty()
    } else {
        let total = inactive.len() as int;
        moves_of(settings, inactive.take(moves_asked(disk.moves, 0, total))) + if first_failed_move(
            disk.moves,
            0,
            total,
        ).is_none() {
            log_write(settings, disk, records_of(settings, disk, inactive, 0, total))
        } else {
            Seq::empty()
        }
    }
}

/// The changes that a whole archive run asks for on this disk: none where
/// the projects directory cannot be listed, and those of
/// [`changes_after_scan`] for the projects of [`scan_result`] otherwise.
pub open spec fn run_changes(settings: SettingsView, disk: Disk, dry_run: bool) -> Seq<ActionView> {
    match disk.listing {
        EventView::Entries(entries) => changes_after_scan(
            settings,
            disk,
            dry_run,
            scan_result(settings, entries, disk.answers, 0),
        ),
        _ => Seq::empty(),
    }
}

/// The changes that a run which stands at `run` still asks for.
pub open spec fn changes_from(settings: SettingsView, disk: Disk, run: RunView) -> Seq<ActionView> {
    match run {
        RunView::Listing { dry_run } => run_changes(settings, disk, dry_run),
        RunView::Probing { dry_run, entries, cursor, source, found } => changes_after_scan(
            settings,
            disk,
            dry_run,
            found_in_the_end(settings, disk, entries, cursor, source, found),
        ),
        RunView::Moving { inactive, records, .. } => {
            let moved = records.len() as int;
            let total = inactive.len() as int;
            moves_of(
                settings,
                inactive.subrange(moved + 1, moves_asked(disk.moves, moved, total)),
            ) + if first_failed_move(disk.moves, moved, total).is_none() {
                log_write(
                    settings,
                    disk,
                    records + records_of(settings, disk, inactive, moved, total),
                )
            } else {
                Seq::empty()
            }
        },
        RunView::ReadingLog { records, .. } => log_write(settings, disk, records),
        RunView::WritingLog { .. } => Seq::empty(),
        RunView::Closed => Seq::empty(),
    }
}

/// [`first_failed_move`] finds a move that does not succeed.
proof fn lemma_first_failed_move(moves: Seq<EventView>, from: int, to: int)
    requires
        from <= to,
    ensures
        first_failed_move(moves, from, to) matches Some(k) ==> from <= k < to && !(moves[k]
            is Done),
    decreases to - from,
{
    if from < to && moves[from] is Done {
        lemma_first_failed_move(moves, from + 1, to);
    }
}

/// What a scan that goes on at `from` still asks to change is what a run
/// asks that has found `found` and the projects at and after `from`.
proof fn lemma_resumed_changes(
    settings: SettingsView,
    disk: Disk,
    dry_run: bool,
    entries: Seq<DirEntryView>,
    from: int,
    found: Seq<ProjectView>,
)
    requires
        0 <= from <= entries.len(),
        disk.answers.len() == entries.len(),
    ensures
        ({
            let resumed = resume_scan(settings, dry_run, entries, from, found, disk.scanned_at);
            let all = found + scan_result(settings, entries, disk.answers, from);
            change_of(resumed.1) + if resumed.1 is Do {
                changes_from(settings, disk, resumed.0)
            } else {
                Seq::empty()
            } == changes_after_scan(settings, disk, dry_run, all)
        }),
{
    let resumed = resume_scan(settings, dry_run, entries, from, found, disk.scanned_at);
    let cursor = next_candidate(settings, entries, from);
    lemma_next_candidate(settings, entries, from);
    lemma_scan_result_skips(settings, entries, disk.answers, from);
    if cursor < entries.len() {
        let source = first_source(entries[cursor]);
        let head = match last_activity(entries[cursor].has_git_dir, disk.answers[cursor]) {
            Some(t) => seq![scanned(entries[cursor], t)],
            None => Seq::empty(),
        };
        assert(activity_from(source, disk.answers[cursor]) == last_activity(
            entries[cursor].has_git_dir,
            disk.answers[cursor],
        ));
        assert(scan_result(settings, entries, disk.answers, cursor) =~= head + scan_result(
            settings,
            entries,
            disk.answers,
            cursor + 1,
        ));
        assert(found_in_the_end(settings, disk, entries, cursor, source, found) =~= found
            + scan_result(settings, entries, disk.answers, from));
        assert(change_of(resumed.1) + changes_from(settings, disk, resumed.0) =~= changes_from(
            settings,
            disk,
            resumed.0,
        ));
    } else {
        assert(scan_result(settings, entries, disk.answers, cursor) =~= Seq::empty());
        assert(found + scan_result(settings, entries, disk.answers, from) =~= found);
        let inactive = inactive_at(found, disk.scanned_at, settings.inactivity_days);
        let total = inactive.len() as int;
        if inactive.len() > 0 && !dry_run {
            lemma_first_failed_move(disk.moves, 0, total);
            let asked = moves_asked(disk.moves, 0, total);
            assert(moves_of(settings, inactive.take(asked)) =~= seq![
                move_request(settings, inactive[0]),
            ] + moves_of(settings, inactive.subrange(1, asked)));
            assert(Seq::<RecordView>::empty() + records_of(settings, disk, inactive, 0, total)
                =~= records_of(settings, disk, inactive, 0, total));
            assert(change_of(resumed.1) + changes_from(settings, disk, resumed.0)
                =~= changes_after_scan(settings, disk, dry_run, found));
        } else {
            assert(change_of(resumed.1) + Seq::<ActionView>::empty() =~= Seq::empty());
        }
    }
}

/// One step of a run on a disk asks for the first of the changes that the
/// state still had to ask for, and leaves the rest to the next state.
proof fn lemma_step_changes(settings: SettingsView, disk: Disk, run: RunView)
    requires
        fits(settings, disk, run),
        !(run is Closed),
    ensures
        ({
            let next = run_step(settings, run, disk.respond(run), disk.time(run));
            changes_from(settings, disk, run) == change_of(next.1) + if next.1 is Do {
                changes_from(settings, disk, next.0)
            } else {
                Seq::empty()
            }
        }),
{
    let next = run_step(settings, run, disk.respond(run), disk.time(run));
    let later = if next.1 is Do {
        changes_from(settings, disk, next.0)
    } else {
        Seq::empty()
    };
    match run {
        RunView::Listing { dry_run } => {
            if let EventView::Entries(entries) = disk.listing {
                lemma_resumed_changes(settings, disk, dry_run, entries, 0, Seq::empty());
                assert(Seq::<ProjectView>::empty() + scan_result(
                    settings,
                    entries,
                    disk.answers,
                    0,
                ) =~= scan_result(settings, entries, disk.answers, 0));
            } else {
                assert(change_of(next.1) + later =~= Seq::empty());
            }
        },
        RunView::Probing { dry_run, entries, cursor, source, found } => {
            let rest = scan_result(settings, entries, disk.answers, cursor + 1);
            match probe_step(source, disk.answers[cursor].to(source)) {
                Probe::Ask(then) => {
                    assert(activity_from(then, disk.answers[cursor]) == activity_from(
                        source,
                        disk.answers[cursor],
                    ));
                    assert(change_of(next.1) + later =~= later);
                },
                Probe::Known(t) => {
                    let more = found.push(scanned(entries[cursor], t));
                    assert(activity_from(source, disk.answers[cursor]) == Some(t));
                    assert(found + seq![scanned(entries[cursor], t)] + rest =~= more + rest);
                    lemma_resumed_changes(settings, disk, dry_run, entries, cursor + 1, more);
                },
                Probe::Unknown => {
                    assert(activity_from(source, disk.answers[cursor]).is_none());
                    assert(found + Seq::<ProjectView>::empty() + rest =~= found + rest);
                    lemma_resumed_changes(settings, disk, dry_run, entries, cursor + 1, found);
                },
            }
        },
        RunView::Moving { plan, inactive, records } => {
            let moved = records.len() as int;
            let total = inactive.len() as int;
            lemma_first_failed_move(disk.moves, moved, total);
            if disk.moves[moved] is Done {
                lemma_first_failed_move(disk.moves, moved + 1, total);
                let more = records.push(record_of(settings, inactive[moved], disk.moved_at[moved]));
                let asked = moves_asked(disk.moves, moved, total);
                assert(records + records_of(settings, disk, inactive, moved, total) =~= more
                    + records_of(settings, disk, inactive, moved + 1, total));
                if moved + 1 < total {
                    assert(moves_of(settings, inactive.subrange(moved + 1, asked)) =~= seq![
                        move_request(settings, inactive[moved + 1]),
                    ] + moves_of(settings, inactive.subrange(moved + 2, asked)));
                } else {
                    assert(moves_of(settings, inactive.subrange(moved + 1, asked))
                        =~= Seq::empty());
                    assert(more + records_of(settings, disk, inactive, moved + 1, total)
                        =~= more);
                }
            } else {
                assert(moves_of(
                    settings,
                    inactive.subrange(moved + 1, moves_asked(disk.moves, moved, total)),
                ) =~= Seq::empty());
            }
            assert(changes_from(settings, disk, run) =~= change_of(next.1) + later);
        },
        RunView::ReadingLog { .. } => {
            assert(changes_from(settings, disk, run) =~= change_of(next.1) + later);
        },
        RunView::WritingLog { .. } => {
            assert(changes_from(settings, disk, run) =~= change_of(next.1) + later);
        },
        RunView::Closed => {},
    }
}

/// The changes among the steps of a run on a disk are the ones its state
/// had to ask for.
proof fn lemma_changes_on(settings: SettingsView, disk: Disk, run: RunView, fuel: nat)
    requires
        fits(settings, disk, run),
        !(run is Closed),
        fuel >= steps_on(disk, run),
        0 < steps_on(disk, run),
    ensures
        changes_in(run_on(settings, disk, run, fuel)) == changes_from(settings, disk, run),
    decreases fuel,
{
    let next = run_step(settings, run, disk.respond(run), disk.time(run));
    let steps = run_on(settings, disk, run, fuel);
    lemma_step(settings, disk, run);
    lemma_step_changes(settings, disk, run);
    if next.1 is Do {
        let later = run_on(settings, disk, next.0, (fuel - 1) as nat);
        lemma_changes_on(settings, disk, next.0, (fuel - 1) as nat);
        assert(steps.drop_first() =~= later);
    } else {
        assert(steps.drop_first() =~= Seq::empty());
        assert(change_of(next.1) + Seq::<ActionView>::empty() =~= change_of(next.1));
    }
    assert(changes_in(steps) =~= change_of(steps[0]) + changes_in(steps.drop_first()));
}

/// An archive run changes what [`run_changes`] says, and nothing else.
/// Among all the requests that a run hands back on a disk, those that
/// change anything are the moves of the inactive projects into the archive,
/// in scan order and up to the first that fails, and after the last of them
/// one write of the log with the new records behind the old. A dry run
/// asks for no change at all, and a log that does not decode is not
/// written.
pub proof fn law_run_changes_what_it_plans(
    settings: SettingsView,
    disk: Disk,
    dry_run: bool,
    fuel: nat,
)
    requires
        disk.listing matches EventView::Entries(entries) ==> disk.answers.len() == entries.len(),
        fuel >= steps_on(disk, RunView::Listing { dry_run }),
    ensures
        changes_in(run_on(settings, disk, RunView::Listing { dry_run }, fuel)) == run_changes(
            settings,
            disk,
            dry_run,
        ),
        dry_run ==> run_changes(settings, disk, dry_run) == Seq::<ActionView>::empty(),
{
    lemma_changes_on(settings, disk, RunView::Listing { dry_run }, fuel);
}

/// A step looks at the time only where it ends the scan or records a move.
/// While a run scans, a step that leaves it scanning is the same at every
/// time; and so is every step that reads or writes the log.
pub proof fn law_time_matters_to_scan_end_and_moves(
    settings: SettingsView,
    run: RunView,
    event: EventView,
    now: Timestamp,
    then: Timestamp,
)
    ensures
        (run is Probing || run is Listing) && run_step(settings, run, event, now).0 is Probing
            ==> run_step(settings, run, event, then) == run_step(settings, run, event, now),
        run is ReadingLog || run is WritingLog || run is Closed ==> run_step(
            settings,
            run,
            event,
            then,
        ) == run_step(settings, run, event, now),
{
}

} // verus!
