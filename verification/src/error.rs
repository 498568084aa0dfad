//! The error taxonomy of the lease protocol, and its abstract counterpart
//! used inside contracts.

use vstd::prelude::*;
use vstd::string::StringExecFns;

verus! {

/// Typed outcome of the lease-controller operations. The RPC boundary maps
/// each kind to a wire-level status code plus the text of [`Error::message`].
#[derive(Debug)]
pub enum Error {
    /// Internal lock or channel failure: a bug or resource exhaustion, never
    /// a protocol violation.
    Unclassified(String),
    /// The caller-supplied id is not admissible in the server's current
    /// state, most often because it differs from the recorded lease id.
    InvalidParameters(String),
    /// A result was requested while no task occupies the slot.
    NoTaskRunningOnSever,
    /// A result was requested before the computation finished.
    TaskStillRunning,
    /// The computation failed; the payload is the upstream failure text.
    TaskFailedWithError(String),
    /// A client-side connection could not be established.
    NewClientFailed(String),
}

/// The mathematical shape of an [`Error`]: the same variants over sequences
/// of characters.
pub ghost enum ErrorModel {
    Unclassified(Seq<char>),
    InvalidParameters(Seq<char>),
    NoTaskRunningOnSever,
    TaskStillRunning,
    TaskFailedWithError(Seq<char>),
    NewClientFailed(Seq<char>),
}

impl View for Error {
    type V = ErrorModel;

    open spec fn view(&self) -> ErrorModel {
        match self {
            Error::Unclassified(s) => ErrorModel::Unclassified(s@),
            Error::InvalidParameters(s) => ErrorModel::InvalidParameters(s@),
            Error::NoTaskRunningOnSever => ErrorModel::NoTaskRunningOnSever,
            Error::TaskStillRunning => ErrorModel::TaskStillRunning,
            Error::TaskFailedWithError(s) => ErrorModel::TaskFailedWithError(s@),
            Error::NewClientFailed(s) => ErrorModel::NewClientFailed(s@),
        }
    }
}

impl ErrorModel {
    /// The human-readable text belonging to each error kind.
    pub open spec fn spec_message(self) -> Seq<char> {
        match self {
            ErrorModel::Unclassified(s) => "unclassified error: "@ + s,
            ErrorModel::InvalidParameters(s) => "Invalid parameters file: "@ + s,
            ErrorModel::NoTaskRunningOnSever => "no task running on this server"@,
            ErrorModel::TaskStillRunning => "Task is still running, not completed"@,
            ErrorModel::TaskFailedWithError(s) => "task failed with error: "@ + s,
            ErrorModel::NewClientFailed(s) => "new client failed with error: "@ + s,
        }
    }
}

impl Error {
    /// Renders the error as its human-readable message.
    pub fn message(&self) -> (r: String)
        ensures
            r@ == self@.spec_message(),
    {
        match self {
            Error::Unclassified(s) => {
                let mut m = "unclassified error: ".to_owned();
                m.append(s.as_str());
                m
            },
            Error::InvalidParameters(s) => {
                let mut m = "Invalid parameters file: ".to_owned();
                m.append(s.as_str());
                m
            },
            Error::NoTaskRunningOnSever => "no task running on this server".to_owned(),
            Error::TaskStillRunning => "Task is still running, not completed".to_owned(),
            Error::TaskFailedWithError(s) => {
                let mut m = "task failed with error: ".to_owned();
                m.append(s.as_str());
                m
            },
            Error::NewClientFailed(s) => {
                let mut m = "new client failed with error: ".to_owned();
                m.append(s.as_str());
                m
            },
        }
    }
}

} // verus!
