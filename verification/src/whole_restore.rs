//! What taking projects out of the archive comes to on a disk that answers
//! every request.

use crate::archive_log::{lemma_record_position, log_contents, record_position};
use crate::archiver::log_path_of;
use crate::config::SettingsView;
use crate::error::ErrorView;
use crate::io::{failure_of, ActionView, EventView};
use crate::models::RecordView;
use crate::restore::{
    dispose_first, dispose_request, restore_step, Disposal, RestorationView, RestoreStepView,
};
use vstd::prelude::*;

verus! {

/// What taking the project named `name` out of the archive ends with, when
/// the disk answers the request to read the log by `log`, the request to
/// move or remove the project by `disposed`, and the request to write the
/// log by `written`.
///
/// A log that cannot be read or does not decode fails the operation, and so
/// does a log without a record of that name: then nothing is moved. A
/// failing move or removal fails it before the log is written.
pub open spec fn restore_outcome(
    name: Seq<char>,
    log: EventView,
    disposed: EventView,
    written: EventView,
) -> Result<usize, ErrorView> {
    match log_contents(log) {
        Err(e) => Err(e),
        Ok(records) => match record_position(records, name) {
            None => Err(ErrorView::NotFound(name)),
            Some(_) => match disposed {
                EventView::Done => match written {
                    EventView::Done => Ok(1),
                    other => Err(failure_of(other)),
                },
                other => Err(failure_of(other)),
            },
        },
    }
}

/// The changes that taking the project named `name` out of the archive asks
/// for: the move or removal of the project of the first record of that
/// name, and, once that is done, one write of the log without that record
/// and with all others in their order.
pub open spec fn restore_changes(
    settings: SettingsView,
    disposal: Disposal,
    name: Seq<char>,
    log: EventView,
    disposed: EventView,
) -> Seq<ActionView> {
    match log_contents(log) {
        Err(_) => Seq::empty(),
        Ok(records) => match record_position(records, name) {
            None => Seq::empty(),
            Some(i) => seq![dispose_request(disposal, records[i])] + if disposed
                is Done {
                seq![
                    ActionView::WriteLog {
                        path: log_path_of(settings),
                        records: records.remove(i),
                    },
                ]
            } else {
                Seq::empty()
            },
        },
    }
}

/// The request of a step, if it has one.
pub open spec fn asked_by(step: RestoreStepView) -> Seq<ActionView> {
    match step {
        RestoreStepView::Do(action) => seq![action],
        RestoreStepView::Finished(_) => Seq::empty(),
    }
}

/// Restoring or deleting one project ends with [`restore_outcome`] and asks
/// for [`restore_changes`], and for nothing else after the log is read.
pub proof fn law_restore_ends_with_its_outcome(
    settings: SettingsView,
    disposal: Disposal,
    name: Seq<char>,
    log: EventView,
    disposed: EventView,
    written: EventView,
)
    ensures
        ({
            let start = RestorationView::ReadingLog { disposal, target: Some(name) };
            let first = restore_step(settings, start, log);
            let second = restore_step(settings, first.0, disposed);
            let third = restore_step(settings, second.0, written);
            let outcome = RestoreStepView::Finished(restore_outcome(name, log, disposed, written));
            let changes = restore_changes(settings, disposal, name, log, disposed);
            if first.1 is Finished {
                first.1 == outcome && changes == Seq::<ActionView>::empty()
            } else if second.1 is Finished {
                second.1 == outcome && changes == asked_by(first.1)
            } else {
                third.1 == outcome && changes == asked_by(first.1) + asked_by(second.1)
            }
        }),
{
    let start = RestorationView::ReadingLog { disposal, target: Some(name) };
    let first = restore_step(settings, start, log);
    let second = restore_step(settings, first.0, disposed);
    let changes = restore_changes(settings, disposal, name, log, disposed);
    if let Ok(records) = log_contents(log) {
        lemma_record_position(records, name);
        if record_position(records, name).is_some() {
            if disposed is Done {
                assert(changes =~= asked_by(first.1) + asked_by(second.1));
            } else {
                assert(changes =~= asked_by(first.1));
            }
        }
    }
}

/// What the disk answers to every request of an operation that takes all
/// projects out of the archive.
pub struct ArchiveDisk {
    /// The answer to the request to read the archive log.
    pub log: EventView,
    /// What comes of moving or removing each project, in the order of the
    /// log.
    pub disposals: Seq<EventView>,
    /// What comes of writing the log after each project.
    pub writes: Seq<EventView>,
}

impl ArchiveDisk {
    /// The disk's answer to the request that an operation on all projects
    /// waits for in this state.
    pub open spec fn respond(self, state: RestorationView) -> EventView {
        match state {
            RestorationView::ReadingLog { .. } => self.log,
            RestorationView::Disposing { records, total, .. } => self.disposals[total
                - records.len()],
            RestorationView::WritingLog { remaining, total, .. } => self.writes[total
                - remaining.len() - 1],
            RestorationView::Closed => EventView::Done,
        }
    }
}

/// The steps that an operation hands back from `state` on, when the disk
/// answers each request: at most `fuel` of them, up to the one that
/// finishes the operation.
pub open spec fn restoration_on(
    settings: SettingsView,
    disk: ArchiveDisk,
    state: RestorationView,
    fuel: nat,
) -> Seq<RestoreStepView>
    decreases fuel,
{
    if fuel == 0 {
        Seq::empty()
    } else {
        let next = restore_step(settings, state, disk.respond(state));
        if next.1 is Finished {
            seq![next.1]
        } else {
            seq![next.1] + restoration_on(settings, disk, next.0, (fuel - 1) as nat)
        }
    }
}

/// The requests among `steps`, in their order.
pub open spec fn requests_in(steps: Seq<RestoreStepView>) -> Seq<ActionView>
    decreases steps.len(),
{
    if steps.len() == 0 {
        Seq::empty()
    } else {
        asked_by(steps[0]) + requests_in(steps.drop_first())
    }
}

/// What taking the projects of `left` out of the archive ends with, when
/// `total` projects were archived at first.
///
/// The projects leave in the order of their records. The first failure,
/// of a move or removal or of a write of the log, ends the operation;
/// without one it ends with the count of all projects.
pub open spec fn bulk_outcome(disk: ArchiveDisk, left: Seq<RecordView>, total: usize) -> Result<
    usize,
    ErrorView,
>
    decreases left.len(),
{
    if left.len() == 0 {
        Ok(total)
    } else {
        match disk.disposals[total - left.len()] {
            EventView::Done => match disk.writes[total - left.len()] {
                EventView::Done => bulk_outcome(disk, left.drop_first(), total),
                other => Err(failure_of(other)),
            },
            other => Err(failure_of(other)),
        }
    }
}

/// The requests that taking the projects of `left` out of the archive makes.
///
/// For each project in turn: its move or removal, and, once that is done,
/// a write of the log with the records of the projects that are still in
/// the archive. So after every write the log holds exactly the projects
/// that the archive holds.
pub open spec fn bulk_requests(
    settings: SettingsView,
    disposal: Disposal,
    disk: ArchiveDisk,
    left: Seq<RecordView>,
    total: usize,
) -> Seq<ActionView>
    decreases left.len(),
{
    if left.len() == 0 {
        Seq::empty()
    } else {
        seq![dispose_request(disposal, left[0])] + match disk.disposals[total - left.len()] {
            EventView::Done => seq![
                ActionView::WriteLog { path: log_path_of(settings), records: left.drop_first() },
            ] + match disk.writes[total - left.len()] {
                EventView::Done => bulk_requests(
                    settings,
                    disposal,
                    disk,
                    left.drop_first(),
                    total,
                ),
                _ => Seq::empty(),
            },
            _ => Seq::empty(),
        }
    }
}

/// The requests among a step and the steps after it.
proof fn lemma_requests_in(step: RestoreStepView, later: Seq<RestoreStepView>)
    ensures
        requests_in(seq![step] + later) == asked_by(step) + requests_in(later),
        requests_in(Seq::<RestoreStepView>::empty()) == Seq::<ActionView>::empty(),
{
    assert((seq![step] + later).drop_first() =~= later);
}

/// What an operation on all projects does from the point where `left` are
/// still in the archive.
proof fn lemma_bulk_on(
    settings: SettingsView,
    disposal: Disposal,
    disk: ArchiveDisk,
    left: Seq<RecordView>,
    total: usize,
    fuel: nat,
)
    requires
        left.len() <= total,
        fuel >= 2 * left.len(),
    ensures
        ({
            let first = dispose_first(disposal, left, total);
            let steps = seq![first.1] + if first.1 is Finished {
                Seq::empty()
            } else {
                restoration_on(settings, disk, first.0, fuel)
            };
            &&& steps.last() == RestoreStepView::Finished(bulk_outcome(disk, left, total))
            &&& requests_in(steps) == bulk_requests(settings, disposal, disk, left, total)
        }),
    decreases left.len(),
{
    let first = dispose_first(disposal, left, total);
    let none = Seq::<RestoreStepView>::empty();
    if left.len() == 0 {
        lemma_requests_in(first.1, none);
        assert(asked_by(first.1) + Seq::<ActionView>::empty() =~= Seq::empty());
    } else {
        let rest = left.drop_first();
        assert(left.remove(0) =~= rest);
        let disposed = restore_step(settings, first.0, disk.respond(first.0));
        let on = restoration_on(settings, disk, first.0, fuel);
        lemma_requests_in(first.1, on);
        if disposed.1 is Finished {
            assert(on =~= seq![disposed.1] + none);
            lemma_requests_in(disposed.1, none);
            assert(requests_in(seq![first.1] + on) =~= bulk_requests(
                settings,
                disposal,
                disk,
                left,
                total,
            ));
        } else {
            let written = restore_step(settings, disposed.0, disk.respond(disposed.0));
            let after = restoration_on(settings, disk, disposed.0, (fuel - 1) as nat);
            lemma_requests_in(disposed.1, after);
            assert(disk.respond(disposed.0) == disk.writes[total - left.len()]);
            if disk.writes[total - left.len()] is Done {
                lemma_bulk_on(settings, disposal, disk, rest, total, (fuel - 2) as nat);
                assert(written == dispose_first(disposal, rest, total));
                assert(after =~= seq![written.1] + if written.1 is Finished {
                    none
                } else {
                    restoration_on(settings, disk, written.0, (fuel - 2) as nat)
                });
            } else {
                assert(after =~= seq![written.1] + none);
                lemma_requests_in(written.1, none);
            }
            assert(requests_in(seq![first.1] + on) =~= bulk_requests(
                settings,
                disposal,
                disk,
                left,
                total,
            ));
        }
    }
}

/// Restoring or deleting all projects ends with [`bulk_outcome`] and makes
/// the requests of [`bulk_requests`], for the records that the log holds.
/// A log that cannot be read or does not decode ends the operation at once,
/// and so does an empty log, with the count zero.
pub proof fn law_bulk_restoration_ends_with_its_outcome(
    settings: SettingsView,
    disposal: Disposal,
    disk: ArchiveDisk,
    fuel: nat,
)
    requires
        log_contents(disk.log) matches Ok(records) ==> records.len() <= usize::MAX && fuel > 2
            * records.len(),
        fuel > 0,
    ensures
        ({
            let start = RestorationView::ReadingLog { disposal, target: None };
            let steps = restoration_on(settings, disk, start, fuel);
            match log_contents(disk.log) {
                Ok(records) => {
                    &&& steps.last() == RestoreStepView::Finished(
                        bulk_outcome(disk, records, records.len() as usize),
                    )
                    &&& requests_in(steps) == bulk_requests(
                        settings,
                        disposal,
                        disk,
                        records,
                        records.len() as usize,
                    )
                },
                Err(e) => steps == seq![RestoreStepView::Finished(Err(e))],
            }
        }),
{
    let start = RestorationView::ReadingLog { disposal, target: None };
    if let Ok(records) = log_contents(disk.log) {
        lemma_bulk_on(
            settings,
            disposal,
            disk,
            records,
            records.len() as usize,
            (fuel - 1) as nat,
        );
        let first = dispose_first(disposal, records, records.len() as usize);
        let steps = seq![first.1] + if first.1 is Finished {
            Seq::empty()
        } else {
            restoration_on(settings, disk, first.0, (fuel - 1) as nat)
        };
        assert(restoration_on(settings, disk, start, fuel) =~= steps);
    }
}

} // verus!
