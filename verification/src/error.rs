//! Errors reported by the bindings.
use vstd::prelude::*;

verus! {

/// An error of the bindings.
#[derive(Debug, PartialEq)]
pub enum Error {
    DatabaseClosed,
    ConnectionClosed,
    ExecutionFailed(String),
    InitializationFailed(String),
    InvalidArgument(String),
}

/// The mathematical content of an [`Error`].
pub enum ErrorView {
    DatabaseClosed,
    ConnectionClosed,
    ExecutionFailed(Seq<char>),
    InitializationFailed(Seq<char>),
    InvalidArgument(Seq<char>),
}

impl View for Error {
    type V = ErrorView;

    open spec fn view(&self) -> ErrorView {
        match self {
            Error::DatabaseClosed => ErrorView::DatabaseClosed,
            Error::ConnectionClosed => ErrorView::ConnectionClosed,
            Error::ExecutionFailed(m) => ErrorView::ExecutionFailed(m@),
            Error::InitializationFailed(m) => ErrorView::InitializationFailed(m@),
            Error::InvalidArgument(m) => ErrorView::InvalidArgument(m@),
        }
    }
}

/// The text with which an error presents itself to a user.
pub open spec fn error_text(e: ErrorView) -> Seq<char> {
    match e {
        ErrorView::DatabaseClosed => "Database is closed"@,
        ErrorView::ConnectionClosed => "Connection is closed"@,
        ErrorView::ExecutionFailed(m) => "Execution error: "@ + m,
        ErrorView::InitializationFailed(m) => "Initialization error: "@ + m,
        ErrorView::InvalidArgument(m) => "Invalid arguments: "@ + m,
    }
}

/// The view of a result whose error is an [`Error`] and whose value has a view.
pub open spec fn result_view<T: View>(r: Result<T, Error>) -> Result<T::V, ErrorView> {
    match r {
        Ok(v) => Ok(v@),
        Err(e) => Err(e@),
    }
}

impl Error {
    /// The user-facing text of this error.
    pub fn to_string(&self) -> (s: String)
        ensures
            s@ == error_text(self@),
    {
        match self {
            Error::DatabaseClosed => String::from_str("Database is closed"),
            Error::ConnectionClosed => String::from_str("Connection is closed"),
            Error::ExecutionFailed(m) => String::from_str("Execution error: ").concat(m.as_str()),
            Error::InitializationFailed(m) => String::from_str("Initialization error: ").concat(
                m.as_str(),
            ),
            Error::InvalidArgument(m) => String::from_str("Invalid arguments: ").concat(m.as_str()),
        }
    }
}

} // verus!
