//! The errors that workspace operations report.

use vstd::prelude::*;

verus! {

/// Why a workspace operation was refused or failed.
#[derive(Debug)]
pub enum AppError {
    /// Nothing usable stands at this path.
    NotFound(String),
    /// The operating system, or a file's content, stood in the way.
    Io(String),
    /// The path does not belong to the workspace, or the workspace has changed.
    InvalidPath(String),
    /// The window has no workspace.
    NoWorkspace,
}

/// The mathematical content of an [`AppError`].
pub enum ErrorView {
    NotFound(Seq<char>),
    Io(Seq<char>),
    InvalidPath(Seq<char>),
    NoWorkspace,
}

impl View for AppError {
    type V = ErrorView;

    open spec fn view(&self) -> ErrorView {
        match self {
            AppError::NotFound(text) => ErrorView::NotFound(text@),
            AppError::Io(text) => ErrorView::Io(text@),
            AppError::InvalidPath(text) => ErrorView::InvalidPath(text@),
            AppError::NoWorkspace => ErrorView::NoWorkspace,
        }
    }
}

impl ErrorView {
    /// The text that is shown for an error.
    pub open spec fn message(self) -> Seq<char> {
        match self {
            ErrorView::NotFound(text) => text,
            ErrorView::Io(text) => text,
            ErrorView::InvalidPath(text) => text,
            ErrorView::NoWorkspace => "No workspace is open"@,
        }
    }
}

impl AppError {
    /// The text that is shown for this error.
    pub fn message(&self) -> (text: String)
        ensures
            text@ == self@.message(),
    {
        match self {
            AppError::NotFound(text) => text.clone(),
            AppError::Io(text) => text.clone(),
            AppError::InvalidPath(text) => text.clone(),
            AppError::NoWorkspace => "No workspace is open".to_owned(),
        }
    }
}

/// An error shows the text that it carries. Its content tells which error it is, with that text.
pub proof fn errors_show_their_text(error: AppError)
    ensures
        error matches AppError::NotFound(text) ==> error@ == ErrorView::NotFound(text@)
            && error@.message() == text@,
        error matches AppError::Io(text) ==> error@ == ErrorView::Io(text@) && error@.message()
            == text@,
        error matches AppError::InvalidPath(text) ==> error@ == ErrorView::InvalidPath(text@)
            && error@.message() == text@,
        error is NoWorkspace ==> error@ == ErrorView::NoWorkspace && error@.message()
            == "No workspace is open"@,
{
}

} // verus!
