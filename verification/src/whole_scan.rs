//! What a scan comes to on a disk that answers every question.
//!
//! The engine learns about a directory one answer at a time. This module
//! says what it has learnt once all questions are answered: which entries
//! of the projects directory are projects, and when each of them was last
//! worked on. That a run goes by these projects is proved in
//! [`whole_run`](crate::whole_run).

use crate::activity::{git_activity, latest_time};
use crate::config::SettingsView;
use crate::io::{DirEntryView, EventView};
use crate::models::ProjectView;
use crate::run::scanned;
use crate::scan::{is_candidate, next_candidate, Source};
use crate::time::Timestamp;
use vstd::prelude::*;

verus! {

/// What the disk answers to each question about one directory.
pub struct Answers {
    /// The answer to a request for the tips of the local branches.
    pub tips: EventView,
    /// The answer to a request for the modification times of the files.
    pub files: EventView,
    /// The answer to a request for the directory's own modification time.
    pub dir_time: EventView,
}

impl Answers {
    /// The answer to the question that is put to `source`.
    pub open spec fn to(self, source: Source) -> EventView {
        match source {
            Source::Repository => self.tips,
            Source::Files => self.files,
            Source::Directory => self.dir_time,
        }
    }

    /// The last activity that the repository tells: the time of the latest
    /// commit at the tip of a local branch.
    pub open spec fn by_repository(self) -> Option<Timestamp> {
        match self.tips {
            EventView::BranchTips(tips) => match git_activity(tips) {
                Ok(t) => Some(t),
                Err(_) => None,
            },
            _ => None,
        }
    }

    /// The last activity that the directory's own modification time tells.
    pub open spec fn by_directory(self) -> Option<Timestamp> {
        match self.dir_time {
            EventView::DirTime(t) => Some(t),
            _ => None,
        }
    }

    /// The last activity that modification times tell: the latest among
    /// the regular files, or the directory's own where it holds no regular
    /// file.
    pub open spec fn by_files(self) -> Option<Timestamp> {
        match self.files {
            EventView::FileTimes(times) => if times.len() > 0 {
                latest_time(times)
            } else {
                self.by_directory()
            },
            _ => None,
        }
    }
}

/// The last activity of a directory, given what the disk answers about it.
///
/// Where the directory holds a `.git` directory and the repository has a
/// latest commit with a valid time, that time is the last activity.
/// Everywhere else the modification times decide. `None` means that the
/// directory cannot be scanned.
pub open spec fn last_activity(has_git_dir: bool, answers: Answers) -> Option<Timestamp> {
    if has_git_dir && answers.by_repository().is_some() {
        answers.by_repository()
    } else {
        answers.by_files()
    }
}

/// The projects among the entries at and after `from`, in the order of the
/// listing: every entry that a scan looks into and whose last activity can
/// be told, with that last activity.
pub open spec fn scan_result(
    settings: SettingsView,
    entries: Seq<DirEntryView>,
    answers: Seq<Answers>,
    from: int,
) -> Seq<ProjectView>
    decreases entries.len() - from,
{
    if from < 0 || from >= entries.len() {
        Seq::empty()
    } else {
        let rest = scan_result(settings, entries, answers, from + 1);
        if is_candidate(settings, entries[from]) {
            match last_activity(entries[from].has_git_dir, answers[from]) {
                Some(t) => seq![scanned(entries[from], t)] + rest,
                None => rest,
            }
        } else {
            rest
        }
    }
}

/// How many questions were put about a directory before `source` is asked.
pub open spec fn asked_before(source: Source) -> int {
    match source {
        Source::Repository => 0,
        Source::Files => 1,
        Source::Directory => 2,
    }
}

/// The last activity that is found by asking `source` and the sources
/// after it.
pub open spec fn activity_from(source: Source, answers: Answers) -> Option<Timestamp> {
    match source {
        Source::Repository => last_activity(true, answers),
        Source::Files => answers.by_files(),
        Source::Directory => answers.by_directory(),
    }
}

/// The entries that are no candidates add nothing to the result of a scan.
pub proof fn lemma_scan_result_skips(
    settings: SettingsView,
    entries: Seq<DirEntryView>,
    answers: Seq<Answers>,
    from: int,
)
    requires
        0 <= from <= entries.len(),
    ensures
        scan_result(settings, entries, answers, from) == scan_result(
            settings,
            entries,
            answers,
            next_candidate(settings, entries, from),
        ),
    decreases entries.len() - from,
{
    if from < entries.len() && !is_candidate(settings, entries[from]) {
        lemma_scan_result_skips(settings, entries, answers, from + 1);
    }
}

/// Every project of a scan is an entry of the listing that a scan looks
/// into, under the entry's name and path, with the entry's last activity.
/// So no project of a scan is excluded, is the archive directory, or is
/// something other than a directory.
pub proof fn law_scanned_projects_are_candidates(
    settings: SettingsView,
    entries: Seq<DirEntryView>,
    answers: Seq<Answers>,
    from: int,
    project: ProjectView,
)
    requires
        0 <= from,
        answers.len() == entries.len(),
        scan_result(settings, entries, answers, from).contains(project),
    ensures
        exists|i: int|
            from <= i < entries.len() && is_candidate(settings, #[trigger] entries[i])
                && last_activity(entries[i].has_git_dir, answers[i]) == Some(
                project.last_activity,
            ) && project == scanned(entries[i], project.last_activity),
        !settings.excludes(project.name),
    decreases entries.len() - from,
{
    if from < entries.len() {
        let rest = scan_result(settings, entries, answers, from + 1);
        let here = last_activity(entries[from].has_git_dir, answers[from]);
        if is_candidate(settings, entries[from]) && here.is_some() {
            let all = seq![scanned(entries[from], here.unwrap())] + rest;
            let at = choose|at: int| 0 <= at < all.len() && all[at] == project;
            if at == 0 {
                assert(is_candidate(settings, entries[from]));
            } else {
                assert(rest[at - 1] == project);
                law_scanned_projects_are_candidates(settings, entries, answers, from + 1, project);
            }
        } else {
            law_scanned_projects_are_candidates(settings, entries, answers, from + 1, project);
        }
    }
}

/// Every entry that a scan looks into and whose last activity can be told
/// is a project of the scan: a failure about one entry loses no other.
pub proof fn law_candidates_are_scanned(
    settings: SettingsView,
    entries: Seq<DirEntryView>,
    answers: Seq<Answers>,
    from: int,
    at: int,
)
    requires
        0 <= from <= at < entries.len(),
        answers.len() == entries.len(),
        is_candidate(settings, entries[at]),
        last_activity(entries[at].has_git_dir, answers[at]).is_some(),
    ensures
        scan_result(settings, entries, answers, from).contains(
            scanned(entries[at], last_activity(entries[at].has_git_dir, answers[at]).unwrap()),
        ),
    decreases entries.len() - from,
{
    let rest = scan_result(settings, entries, answers, from + 1);
    let all = scan_result(settings, entries, answers, from);
    let wanted = scanned(
        entries[at],
        last_activity(entries[at].has_git_dir, answers[at]).unwrap(),
    );
    if from == at {
        assert(all[0] == wanted);
    } else {
        law_candidates_are_scanned(settings, entries, answers, from + 1, at);
        let i = choose|i: int| 0 <= i < rest.len() && rest[i] == wanted;
        let here = last_activity(entries[from].has_git_dir, answers[from]);
        if is_candidate(settings, entries[from]) && here.is_some() {
            assert(all[i + 1] == wanted);
        } else {
            assert(all[i] == wanted);
        }
    }
}

/// A directory that holds a `.git` directory but whose repository has no
/// commit on any local branch is judged by its modification times, as a
/// directory without a repository is. Where those cannot be read either, it
/// has no last activity, and is no project of the scan.
pub proof fn law_repository_without_commits(answers: Answers)
    requires
        answers.tips == EventView::BranchTips(Seq::empty()),
    ensures
        last_activity(true, answers) == last_activity(false, answers),
        last_activity(true, answers) == answers.by_files(),
        !(answers.files is FileTimes) ==> last_activity(true, answers).is_none(),
{
    assert(crate::activity::latest_seconds(Seq::<i64>::empty()).is_none());
}

} // verus!
