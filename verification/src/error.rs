//! The ways in which an operation of the engine can fail.

use vstd::prelude::*;
use vstd::string::StringExecFns;

verus! {

/// Why an operation stopped. Failures that come from the caller's side (the
/// file system, the repository reader, the log decoder) carry the caller's
/// description of them.
#[derive(Debug)]
pub enum Error {
    /// A directory could not be read, created, moved or removed, or the
    /// archive log could not be read or written.
    Io(String),
    /// Version-control metadata was unavailable. The engine recovers from
    /// this by falling back to modification times.
    Git(String),
    /// The settings could not be loaded.
    Config(String),
    /// The archive log exists but does not decode.
    Json(String),
    /// No home directory is known for the current user.
    HomeDirNotFound,
    /// Any other failure, described in words.
    Custom(String),
    /// A directory tree could not be walked.
    WalkDir(String),
    /// The named project has no record in the archive log.
    NotFound(String),
}

/// The mathematical value of an [`Error`].
pub enum ErrorView {
    Io(Seq<char>),
    Git(Seq<char>),
    Config(Seq<char>),
    Json(Seq<char>),
    HomeDirNotFound,
    Custom(Seq<char>),
    WalkDir(Seq<char>),
    NotFound(Seq<char>),
}

impl View for Error {
    type V = ErrorView;

    open spec fn view(&self) -> ErrorView {
        match *self {
            Error::Io(m) => ErrorView::Io(m@),
            Error::Git(m) => ErrorView::Git(m@),
            Error::Config(m) => ErrorView::Config(m@),
            Error::Json(m) => ErrorView::Json(m@),
            Error::HomeDirNotFound => ErrorView::HomeDirNotFound,
            Error::Custom(m) => ErrorView::Custom(m@),
            Error::WalkDir(m) => ErrorView::WalkDir(m@),
            Error::NotFound(name) => ErrorView::NotFound(name@),
        }
    }
}

impl DeepView for Error {
    type V = ErrorView;

    open spec fn deep_view(&self) -> ErrorView {
        self@
    }
}

impl ErrorView {
    /// The text that describes the error to a user.
    pub open spec fn message(self) -> Seq<char> {
        match self {
            ErrorView::Io(m) => "I/O error: "@ + m,
            ErrorView::Git(m) => "Git error: "@ + m,
            ErrorView::Config(m) => "Settings error: "@ + m,
            ErrorView::Json(m) => "Serialization error: "@ + m,
            ErrorView::HomeDirNotFound => "Home directory not found"@,
            ErrorView::Custom(m) => m,
            ErrorView::WalkDir(m) => "Failed to walk directory: "@ + m,
            ErrorView::NotFound(name) => "Project '"@ + name + "' not found in archive log."@,
        }
    }
}

impl Error {
    /// The text that describes the error to a user.
    pub fn message(&self) -> (text: String)
        ensures
            text@ == self@.message(),
    {
        match self {
            Error::Io(m) => String::from_str("I/O error: ").concat(m.as_str()),
            Error::Git(m) => String::from_str("Git error: ").concat(m.as_str()),
            Error::Config(m) => String::from_str("Settings error: ").concat(m.as_str()),
            Error::Json(m) => String::from_str("Serialization error: ").concat(m.as_str()),
            Error::HomeDirNotFound => String::from_str("Home directory not found"),
            Error::Custom(m) => m.clone(),
            Error::WalkDir(m) => String::from_str("Failed to walk directory: ").concat(m.as_str()),
            Error::NotFound(name) => String::from_str("Project '").concat(name.as_str()).concat(
                "' not found in archive log.",
            ),
        }
    }
}

} // verus!
