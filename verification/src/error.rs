//! The fatal errors of a session.

use vstd::prelude::*;
use vstd::string::*;

verus! {

/// The group that a fatal error belongs to.
#[derive(Clone, Copy, Debug, PartialEq, Eq, Structural)]
pub enum ErrorKind {
    /// The options are wrong or incomplete. Nothing was started.
    Configuration,
    /// No endpoint could be resolved.
    Resolution,
    /// The receive session could not be set up on the endpoint.
    Transport,
}

/// A fatal error. It ends the run with exit code 1 and is never retried. A
/// message lost in the stream is no error: it is counted in the statistics.
#[derive(Debug, PartialEq, Eq)]
pub enum SessionError {
    /// Neither an address nor channel names were given, and debug mode is off.
    NoTarget,
    /// The running time is no 64-bit signed integer.
    InvalidTime { text: String },
    /// The number of messages is no 32-bit unsigned integer.
    InvalidMessages { text: String },
    /// The print level is no 64-bit unsigned integer.
    InvalidLevel { text: String },
    /// The array print size is no unsigned integer of pointer width.
    InvalidSize { text: String },
    /// The dispatcher gave no stream for the channels.
    Dispatcher { cause: String },
    /// The debug source did not start.
    DebugSource { cause: String },
    /// The receiver could not be created on the endpoint.
    Receiver { cause: String },
}

/// The mathematical value of [`SessionError`].
pub enum ErrorModel {
    NoTarget,
    InvalidTime { text: Seq<char> },
    InvalidMessages { text: Seq<char> },
    InvalidLevel { text: Seq<char> },
    InvalidSize { text: Seq<char> },
    Dispatcher { cause: Seq<char> },
    DebugSource { cause: Seq<char> },
    Receiver { cause: Seq<char> },
}

impl View for SessionError {
    type V = ErrorModel;

    open spec fn view(&self) -> ErrorModel {
        match self {
            SessionError::NoTarget => ErrorModel::NoTarget,
            SessionError::InvalidTime { text } => ErrorModel::InvalidTime { text: text@ },
            SessionError::InvalidMessages { text } => ErrorModel::InvalidMessages { text: text@ },
            SessionError::InvalidLevel { text } => ErrorModel::InvalidLevel { text: text@ },
            SessionError::InvalidSize { text } => ErrorModel::InvalidSize { text: text@ },
            SessionError::Dispatcher { cause } => ErrorModel::Dispatcher { cause: cause@ },
            SessionError::DebugSource { cause } => ErrorModel::DebugSource { cause: cause@ },
            SessionError::Receiver { cause } => ErrorModel::Receiver { cause: cause@ },
        }
    }
}

impl ErrorModel {
    /// The group of the error. Starting the debug source is part of
    /// resolving the endpoint, so its failure is one of resolution.
    pub open spec fn kind(self) -> ErrorKind {
        match self {
            ErrorModel::NoTarget => ErrorKind::Configuration,
            ErrorModel::InvalidTime { .. } => ErrorKind::Configuration,
            ErrorModel::InvalidMessages { .. } => ErrorKind::Configuration,
            ErrorModel::InvalidLevel { .. } => ErrorKind::Configuration,
            ErrorModel::InvalidSize { .. } => ErrorKind::Configuration,
            ErrorModel::Dispatcher { .. } => ErrorKind::Resolution,
            ErrorModel::DebugSource { .. } => ErrorKind::Resolution,
            ErrorModel::Receiver { .. } => ErrorKind::Transport,
        }
    }

    /// The one line that tells the operator what went wrong.
    pub open spec fn message(self) -> Seq<char> {
        match self {
            ErrorModel::NoTarget => "no target specified"@,
            ErrorModel::InvalidTime { text } => "Invalid value of time: "@ + text,
            ErrorModel::InvalidMessages { text } => "Invalid value of messages: "@ + text,
            ErrorModel::InvalidLevel { text } => "Invalid value of level: "@ + text,
            ErrorModel::InvalidSize { text } => "Invalid value of size: "@ + text,
            ErrorModel::Dispatcher { cause } => "Error requesting stream to Dispatcher: "@ + cause,
            ErrorModel::DebugSource { cause } => "Failed to start sender: "@ + cause,
            ErrorModel::Receiver { cause } => "Failed to create receiver: "@ + cause,
        }
    }
}

/// The exit code of a run: 1 after a fatal error, 0 otherwise.
pub open spec fn exit_code_of(failure: Option<ErrorModel>) -> i32 {
    if failure is Some {
        1
    } else {
        0
    }
}

impl Clone for SessionError {
    fn clone(&self) -> (copy: SessionError)
        ensures
            copy@ == self@,
    {
        match self {
            SessionError::NoTarget => SessionError::NoTarget,
            SessionError::InvalidTime { text } => SessionError::InvalidTime { text: text.clone() },
            SessionError::InvalidMessages { text } => SessionError::InvalidMessages {
                text: text.clone(),
            },
            SessionError::InvalidLevel { text } => SessionError::InvalidLevel { text: text.clone() },
            SessionError::InvalidSize { text } => SessionError::InvalidSize { text: text.clone() },
            SessionError::Dispatcher { cause } => SessionError::Dispatcher { cause: cause.clone() },
            SessionError::DebugSource { cause } => SessionError::DebugSource {
                cause: cause.clone(),
            },
            SessionError::Receiver { cause } => SessionError::Receiver { cause: cause.clone() },
        }
    }
}

impl SessionError {
    /// Returns the group of the error.
    pub fn kind(&self) -> (kind: ErrorKind)
        ensures
            kind == self@.kind(),
    {
        match self {
            SessionError::NoTarget => ErrorKind::Configuration,
            SessionError::InvalidTime { .. } => ErrorKind::Configuration,
            SessionError::InvalidMessages { .. } => ErrorKind::Configuration,
            SessionError::InvalidLevel { .. } => ErrorKind::Configuration,
            SessionError::InvalidSize { .. } => ErrorKind::Configuration,
            SessionError::Dispatcher { .. } => ErrorKind::Resolution,
            SessionError::DebugSource { .. } => ErrorKind::Resolution,
            SessionError::Receiver { .. } => ErrorKind::Transport,
        }
    }

    /// Returns the one line that tells the operator what went wrong.
    pub fn message(&self) -> (line: String)
        ensures
            line@ == self@.message(),
    {
        match self {
            SessionError::NoTarget => "no target specified".to_owned(),
            SessionError::InvalidTime { text } => "Invalid value of time: ".to_owned().concat(
                text.as_str(),
            ),
            SessionError::InvalidMessages { text } => "Invalid value of messages: ".to_owned().concat(
                text.as_str(),
            ),
            SessionError::InvalidLevel { text } => "Invalid value of level: ".to_owned().concat(
                text.as_str(),
            ),
            SessionError::InvalidSize { text } => "Invalid value of size: ".to_owned().concat(
                text.as_str(),
            ),
            SessionError::Dispatcher { cause } => "Error requesting stream to Dispatcher: ".to_owned().concat(
                cause.as_str(),
            ),
            SessionError::DebugSource { cause } => "Failed to start sender: ".to_owned().concat(
                cause.as_str(),
            ),
            SessionError::Receiver { cause } => "Failed to create receiver: ".to_owned().concat(
                cause.as_str(),
            ),
        }
    }
}

} // verus!
