//! Which entries of the projects directory are projects, and how the last
//! activity of one is found out.

use crate::activity::{find_latest_mtime, get_git_last_activity, git_activity, latest_time};
use crate::config::{Settings, SettingsView};
use crate::io::{Action, ActionView, DirEntry, DirEntryView, Event, EventView};
use crate::paths::{file_name, final_component};
use crate::time::Timestamp;
use vstd::prelude::*;

verus! {

/// Whether a scan looks into `entry`, where `archive_name` is the archive
/// directory's own name.
///
/// It does not if the entry is named like the archive directory (the archive
/// may lie inside the projects directory, and is not to be archived into
/// itself), if its name is on the exclusion list, or if it is not a
/// directory.
pub open spec fn admits(
    archive_name: Option<Seq<char>>,
    settings: SettingsView,
    entry: DirEntryView,
) -> bool {
    &&& archive_name != Some(entry.name)
    &&& !settings.excludes(entry.name)
    &&& entry.is_dir
}

/// Whether a scan looks into `entry` at all: whether it [`admits`] the
/// entry, with the final component of the archive directory's path as the
/// archive's name.
pub open spec fn is_candidate(settings: SettingsView, entry: DirEntryView) -> bool {
    admits(final_component(settings.archive_dir), settings, entry)
}

/// The index of the first candidate among `entries` at or after `from`; the
/// number of entries if there is none.
pub open spec fn next_candidate(
    settings: SettingsView,
    entries: Seq<DirEntryView>,
    from: int,
) -> int
    decreases entries.len() - from,
{
    if from < 0 || from >= entries.len() {
        entries.len() as int
    } else if is_candidate(settings, entries[from]) {
        from
    } else {
        next_candidate(settings, entries, from + 1)
    }
}

/// [`next_candidate`] stops at a candidate, and passes over none.
pub proof fn lemma_next_candidate(settings: SettingsView, entries: Seq<DirEntryView>, from: int)
    requires
        0 <= from <= entries.len(),
    ensures
        from <= next_candidate(settings, entries, from) <= entries.len(),
        next_candidate(settings, entries, from) < entries.len() ==> is_candidate(
            settings,
            entries[next_candidate(settings, entries, from)],
        ),
        forall|i: int|
            from <= i < next_candidate(settings, entries, from) ==> !is_candidate(
                settings,
                #[trigger] entries[i],
            ),
    decreases entries.len() - from,
{
    if from < entries.len() && !is_candidate(settings, entries[from]) {
        lemma_next_candidate(settings, entries, from + 1);
    }
}

/// Whether a scan looks into `entry`, where `archive_name` is the archive
/// directory's own name: see [`admits`].
pub fn admits_entry(archive_name: &Option<String>, settings: &Settings, entry: &DirEntry) -> (r:
    bool)
    ensures
        r == admits(archive_name.deep_view(), settings@, entry@),
{
    let is_archive = match archive_name {
        Some(name) => *name == entry.name,
        None => false,
    };
    !is_archive && !settings.is_excluded(entry.name.as_str()) && entry.is_dir
}

/// Whether a scan under `settings` looks into `entry`: see [`is_candidate`].
pub fn is_candidate_entry(settings: &Settings, entry: &DirEntry) -> (r: bool)
    ensures
        r == is_candidate(settings@, entry@),
{
    let archive_name = file_name(settings.archive_dir.as_str());
    admits_entry(&archive_name, settings, entry)
}

/// The index of the first entry at or after `from` that a scan looks into;
/// the number of entries if there is none.
pub fn find_next_candidate(settings: &Settings, entries: &Vec<DirEntry>, from: usize) -> (at: usize)
    ensures
        at == next_candidate(settings@, entries.deep_view(), from as int),
        at <= entries.len(),
{
    let archive_name = file_name(settings.archive_dir.as_str());
    let ghost views = entries.deep_view();
    let mut at: usize = from;
    if at > entries.len() {
        return entries.len();
    }
    while at < entries.len()
        invariant
            from <= at <= entries.len(),
            views == entries.deep_view(),
            archive_name.deep_view() == final_component(settings@.archive_dir),
            next_candidate(settings@, views, from as int) == next_candidate(
                settings@,
                views,
                at as int,
            ),
        decreases entries.len() - at,
    {
        assert(views[at as int] == entries[at as int]@);
        if admits_entry(&archive_name, settings, &entries[at]) {
            return at;
        }
        at += 1;
    }
    at
}

/// A source of knowledge about a directory's last activity.
#[derive(Clone, Copy, Debug, PartialEq, Eq, Structural)]
pub enum Source {
    /// The commits at the tips of the repository's local branches.
    Repository,
    /// The modification times of the regular files below the directory.
    Files,
    /// The modification time of the directory itself.
    Directory,
}

/// Where the search for a directory's last activity stands after an answer.
#[derive(Clone, Copy, Debug, PartialEq, Eq, Structural)]
pub enum Probe {
    /// The last activity is known.
    Known(Timestamp),
    /// This source is to be asked next.
    Ask(Source),
    /// No source has an answer: the directory cannot be scanned.
    Unknown,
}

/// The source that is asked first: the repository if the directory holds a
/// `.git` directory, its files if not.
pub open spec fn first_source(entry: DirEntryView) -> Source {
    if entry.has_git_dir {
        Source::Repository
    } else {
        Source::Files
    }
}

/// The request that puts the question to `source`, for the directory at
/// `path`.
pub open spec fn probe_request(source: Source, path: Seq<char>) -> ActionView {
    match source {
        Source::Repository => ActionView::ReadBranchTips { repo: path },
        Source::Files => ActionView::ReadFileTimes { dir: path },
        Source::Directory => ActionView::ReadDirTime { dir: path },
    }
}

/// What follows from the answer `event` of `source`.
///
/// The repository answers with the latest commit on any local branch. If it
/// has no commit, cannot be read, or its latest commit time is no valid
/// date, the files are asked: a failing repository is never an error.
/// The files answer with the latest modification time among them. If there
/// is no regular file, the directory's own modification time is asked for.
/// A failure of either of these leaves the last activity unknown.
pub open spec fn probe_step(source: Source, event: EventView) -> Probe {
    match source {
        Source::Repository => match event {
            EventView::BranchTips(tips) => match git_activity(tips) {
                Ok(t) => Probe::Known(t),
                Err(_) => Probe::Ask(Source::Files),
            },
            _ => Probe::Ask(Source::Files),
        },
        Source::Files => match event {
            EventView::FileTimes(times) => match latest_time(times) {
                Some(t) => Probe::Known(t),
                None => Probe::Ask(Source::Directory),
            },
            _ => Probe::Unknown,
        },
        Source::Directory => match event {
            EventView::DirTime(t) => Probe::Known(t),
            _ => Probe::Unknown,
        },
    }
}

/// The source that is asked first about `entry`: see [`first_source`].
pub fn first_probe(entry: &DirEntry) -> (source: Source)
    ensures
        source == first_source(entry@),
{
    if entry.has_git_dir {
        Source::Repository
    } else {
        Source::Files
    }
}

/// The request that puts the question to `source`: see [`probe_request`].
pub fn probe_action(source: Source, path: &String) -> (action: Action)
    ensures
        action@ == probe_request(source, path@),
{
    match source {
        Source::Repository => Action::ReadBranchTips { repo: path.clone() },
        Source::Files => Action::ReadFileTimes { dir: path.clone() },
        Source::Directory => Action::ReadDirTime { dir: path.clone() },
    }
}

/// Determines the last activity of a directory one answer at a time,
/// the repository first and the modification times after it: see
/// [`probe_step`].
pub fn get_last_activity(source: Source, event: &Event) -> (probe: Probe)
    ensures
        probe == probe_step(source, event@),
{
    match source {
        Source::Repository => match event {
            Event::BranchTips(tips) => match get_git_last_activity(tips) {
                Ok(t) => Probe::Known(t),
                Err(_) => Probe::Ask(Source::Files),
            },
            _ => Probe::Ask(Source::Files),
        },
        Source::Files => match event {
            Event::FileTimes(times) => match find_latest_mtime(times) {
                Some(t) => Probe::Known(t),
                None => Probe::Ask(Source::Directory),
            },
            _ => Probe::Unknown,
        },
        Source::Directory => match event {
            Event::DirTime(t) => Probe::Known(*t),
            _ => Probe::Unknown,
        },
    }
}

} // verus!
