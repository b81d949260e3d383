//! The ways in which a load can fail.

use vstd::prelude::*;
use vstd::string::StringExecFns;

verus! {

/// Why a load failed.
#[derive(Debug, PartialEq, Eq)]
pub enum Error {
    /// The executable is not installed or cannot be launched.
    NotFound,
    /// The executable could not be launched, or the export exited with a
    /// failure. Holds the system's error text or what the export wrote to its
    /// standard error.
    ExecutionError(String),
    /// Switching to the named environment exited with a failure. Holds what
    /// the executable wrote to its standard error.
    EnvironmentSwitchError(String),
    /// The settings are malformed. No step of a load gives this error.
    InvalidFormat(String),
}

/// An `Error` as plain values.
pub enum ErrorView {
    NotFound,
    ExecutionError(Seq<char>),
    EnvironmentSwitchError(Seq<char>),
    InvalidFormat(Seq<char>),
}

impl ErrorView {
    /// The sentence that describes the error.
    pub open spec fn message(self) -> Seq<char> {
        match self {
            ErrorView::NotFound => "Vaultarq CLI not found"@,
            ErrorView::ExecutionError(detail) => "Failed to execute Vaultarq: "@ + detail,
            ErrorView::EnvironmentSwitchError(detail) => "Failed to switch environment: "@ + detail,
            ErrorView::InvalidFormat(detail) => "Invalid format: "@ + detail,
        }
    }
}

impl View for Error {
    type V = ErrorView;

    open spec fn view(&self) -> ErrorView {
        match self {
            Error::NotFound => ErrorView::NotFound,
            Error::ExecutionError(detail) => ErrorView::ExecutionError(detail@),
            Error::EnvironmentSwitchError(detail) => ErrorView::EnvironmentSwitchError(detail@),
            Error::InvalidFormat(detail) => ErrorView::InvalidFormat(detail@),
        }
    }
}

impl Error {
    /// The sentence that describes the error.
    pub fn message(&self) -> (text: String)
        ensures
            text@ == self@.message(),
    {
        match self {
            Error::NotFound => "Vaultarq CLI not found".to_owned(),
            Error::ExecutionError(detail) => {
                "Failed to execute Vaultarq: ".to_owned().concat(detail.as_str())
            },
            Error::EnvironmentSwitchError(detail) => {
                "Failed to switch environment: ".to_owned().concat(detail.as_str())
            },
            Error::InvalidFormat(detail) => "Invalid format: ".to_owned().concat(detail.as_str()),
        }
    }
}

} // verus!
