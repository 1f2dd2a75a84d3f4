//! The failures that the two operations report.

use vstd::prelude::*;
use vstd::string::*;

verus! {

/// Why an operation failed.
#[derive(Clone, Debug, PartialEq, Eq)]
pub enum Error {
    /// The path could not be opened; carries the system's description.
    OpenFailure(String),
    /// The file was opened but the system gave no final path for it.
    ResolutionFailure,
    /// The list of process identifiers could not be retrieved.
    EnumerationFailure,
    /// No process bears the requested name; carries that name.
    NotFound(String),
    /// The platform lacks the process-inspection facilities.
    UnsupportedPlatform,
}

/// An [`Error`] with its texts as sequences of characters.
pub enum ErrorView {
    OpenFailure(Seq<char>),
    ResolutionFailure,
    EnumerationFailure,
    NotFound(Seq<char>),
    UnsupportedPlatform,
}

impl View for Error {
    type V = ErrorView;

    open spec fn view(&self) -> ErrorView {
        match self {
            Error::OpenFailure(reason) => ErrorView::OpenFailure(reason@),
            Error::ResolutionFailure => ErrorView::ResolutionFailure,
            Error::EnumerationFailure => ErrorView::EnumerationFailure,
            Error::NotFound(name) => ErrorView::NotFound(name@),
            Error::UnsupportedPlatform => ErrorView::UnsupportedPlatform,
        }
    }
}

impl ErrorView {
    /// The text shown to the caller for this failure.
    pub open spec fn message(self) -> Seq<char> {
        match self {
            ErrorView::OpenFailure(reason) => "CreateFileW failed: "@ + reason,
            ErrorView::ResolutionFailure => "GetFinalPathNameByHandleW failed"@,
            ErrorView::EnumerationFailure => "EnumProcesses failed"@,
            ErrorView::NotFound(name) => "Process not found: "@ + name,
            ErrorView::UnsupportedPlatform => "Unsupported platform"@,
        }
    }
}

impl Error {
    /// The human-readable message of this failure.
    pub fn message(&self) -> (text: String)
        ensures
            text@ == self@.message(),
    {
        match self {
            Error::OpenFailure(reason) => {
                String::from_str("CreateFileW failed: ").concat(reason.as_str())
            },
            Error::ResolutionFailure => String::from_str("GetFinalPathNameByHandleW failed"),
            Error::EnumerationFailure => String::from_str("EnumProcesses failed"),
            Error::NotFound(name) => String::from_str("Process not found: ").concat(name.as_str()),
            Error::UnsupportedPlatform => String::from_str("Unsupported platform"),
        }
    }
}

/// The view of an operation's result: the path, or the failure, as texts.
pub open spec fn result_view(result: Result<String, Error>) -> Result<Seq<char>, ErrorView> {
    match result {
        Ok(path) => Ok(path@),
        Err(error) => Err(error@),
    }
}

} // verus!
