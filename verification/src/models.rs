//! The records that the engine passes around.

use crate::time::Timestamp;
use vstd::prelude::*;

verus! {

/// A project directory found by a scan, with the time of its last activity.
#[derive(Debug)]
pub struct ScannedProject {
    /// The directory's own name, without its parents.
    pub name: String,
    /// Where the directory is.
    pub path: String,
    /// When work was last done in it.
    pub last_activity: Timestamp,
}

/// The mathematical value of a [`ScannedProject`].
pub struct ProjectView {
    pub name: Seq<char>,
    pub path: Seq<char>,
    pub last_activity: Timestamp,
}

impl View for ScannedProject {
    type V = ProjectView;

    open spec fn view(&self) -> ProjectView {
        ProjectView { name: self.name@, path: self.path@, last_activity: self.last_activity }
    }
}

impl DeepView for ScannedProject {
    type V = ProjectView;

    open spec fn deep_view(&self) -> ProjectView {
        self@
    }
}

impl Clone for ScannedProject {
    fn clone(&self) -> (copy: ScannedProject)
        ensures
            copy@ == self@,
    {
        ScannedProject {
            name: self.name.clone(),
            path: self.path.clone(),
            last_activity: self.last_activity,
        }
    }
}

/// One entry of the archive log: a project that was moved into the archive,
/// and where it came from.
#[derive(Debug)]
pub struct ArchivedRecord {
    /// The project's name, by which it is restored.
    pub name: String,
    /// Where the project was before it was archived.
    pub original_path: String,
    /// Where the project is now, inside the archive directory.
    pub archive_path: String,
    /// When it was moved.
    pub archived_at: Timestamp,
}

/// The mathematical value of an [`ArchivedRecord`].
pub struct RecordView {
    pub name: Seq<char>,
    pub original_path: Seq<char>,
    pub archive_path: Seq<char>,
    pub archived_at: Timestamp,
}

impl View for ArchivedRecord {
    type V = RecordView;

    open spec fn view(&self) -> RecordView {
        RecordView {
            name: self.name@,
            original_path: self.original_path@,
            archive_path: self.archive_path@,
            archived_at: self.archived_at,
        }
    }
}

impl DeepView for ArchivedRecord {
    type V = RecordView;

    open spec fn deep_view(&self) -> RecordView {
        self@
    }
}

impl Clone for ArchivedRecord {
    fn clone(&self) -> (copy: ArchivedRecord)
        ensures
            copy@ == self@,
    {
        ArchivedRecord {
            name: self.name.clone(),
            original_path: self.original_path.clone(),
            archive_path: self.archive_path.clone(),
            archived_at: self.archived_at,
        }
    }
}

} // verus!
