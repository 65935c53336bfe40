//! The errors that persistence and execution report.

use vstd::prelude::*;
use vstd::std_specs::convert::FromSpecImpl;
use vstd::string::*;

verus! {

/// What went wrong, with the message of the failing operation.
#[derive(Debug)]
pub enum AppError {
    /// The file system refused an access.
    Io(String),
    /// A persisted document is malformed, or a value cannot be encoded.
    Serialization(String),
    /// The storage location cannot be resolved.
    Config(String),
    /// A process could not be spawned.
    Execution(String),
}

/// What an [`AppError`] holds, as mathematical values.
pub enum AppErrorView {
    Io(Seq<char>),
    Serialization(Seq<char>),
    Config(Seq<char>),
    Execution(Seq<char>),
}

impl View for AppError {
    type V = AppErrorView;

    open spec fn view(&self) -> AppErrorView {
        match *self {
            AppError::Io(m) => AppErrorView::Io(m@),
            AppError::Serialization(m) => AppErrorView::Serialization(m@),
            AppError::Config(m) => AppErrorView::Config(m@),
            AppError::Execution(m) => AppErrorView::Execution(m@),
        }
    }
}

impl AppErrorView {
    /// The text shown for the error: its kind, a colon and its message.
    pub open spec fn text(self) -> Seq<char> {
        match self {
            AppErrorView::Io(m) => "I/O error: "@ + m,
            AppErrorView::Serialization(m) => "Serialization error: "@ + m,
            AppErrorView::Config(m) => "Configuration error: "@ + m,
            AppErrorView::Execution(m) => "Execution error: "@ + m,
        }
    }
}

impl Clone for AppError {
    fn clone(&self) -> (r: Self)
        ensures
            r == *self,
    {
        match self {
            AppError::Io(m) => AppError::Io(m.clone()),
            AppError::Serialization(m) => AppError::Serialization(m.clone()),
            AppError::Config(m) => AppError::Config(m.clone()),
            AppError::Execution(m) => AppError::Execution(m.clone()),
        }
    }
}

impl AppError {
    /// The text shown for the error.
    pub fn describe(&self) -> (r: String)
        ensures
            r@ == self@.text(),
    {
        match self {
            AppError::Io(m) => String::from_str("I/O error: ").concat(m.as_str()),
            AppError::Serialization(m) => String::from_str("Serialization error: ").concat(
                m.as_str(),
            ),
            AppError::Config(m) => String::from_str("Configuration error: ").concat(m.as_str()),
            AppError::Execution(m) => String::from_str("Execution error: ").concat(m.as_str()),
        }
    }
}

#[verifier::external_type_specification]
#[verifier::external_body]
pub struct ExIoError(std::io::Error);

#[verifier::external_type_specification]
#[verifier::external_body]
pub struct ExJsonError(serde_json::Error);

/// `std::io::Error`'s `to_string`: the message of an I/O error. The text
/// depends on the platform, so nothing is claimed of it.
#[verifier::external_body]
pub(crate) fn io_error_message(err: &std::io::Error) -> (r: String) {
    err.to_string()
}

/// `serde_json::Error`'s `to_string`: the message of a JSON error, with the
/// line and column where one is known. Nothing is claimed of the text.
#[verifier::external_body]
fn json_error_message(err: &serde_json::Error) -> (r: String) {
    err.to_string()
}

impl From<std::io::Error> for AppError {
    fn from(err: std::io::Error) -> (r: AppError)
        ensures
            r is Io,
    {
        AppError::Io(io_error_message(&err))
    }
}

impl FromSpecImpl<std::io::Error> for AppError {
    open spec fn obeys_from_spec() -> bool {
        false
    }

    open spec fn from_spec(err: std::io::Error) -> AppError {
        arbitrary()
    }
}

impl From<serde_json::Error> for AppError {
    fn from(err: serde_json::Error) -> (r: AppError)
        ensures
            r is Serialization,
    {
        AppError::Serialization(json_error_message(&err))
    }
}

impl FromSpecImpl<serde_json::Error> for AppError {
    open spec fn obeys_from_spec() -> bool {
        false
    }

    open spec fn from_spec(err: serde_json::Error) -> AppError {
        arbitrary()
    }
}

} // verus!
