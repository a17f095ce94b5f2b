use std::string::FromUtf8Error;
use vstd::prelude::*;
use vstd::string::StringExecFns;

verus! {

/// `std::io::Error`, carried through as an opaque value.
#[verifier::external_type_specification]
#[verifier::external_body]
pub struct ExIoError(std::io::Error);

/// `std::string::FromUtf8Error`, carried through as an opaque value.
#[verifier::external_type_specification]
#[verifier::external_body]
pub struct ExFromUtf8Error(FromUtf8Error);

/// `tokio::sync::oneshot::error::RecvError`, carried through as an opaque value.
#[verifier::external_type_specification]
#[verifier::external_body]
pub struct ExRecvError(tokio::sync::oneshot::error::RecvError);

/// `serde_json::Error`, carried through as an opaque value.
#[verifier::external_type_specification]
#[verifier::external_body]
pub struct ExSerdeJsonError(serde_json::Error);

/// Why a directory could not be chosen.
#[derive(Debug)]
pub enum DirectoryError {
    Io(std::io::Error),
    RecvError(tokio::sync::oneshot::error::RecvError),
}

/// Why the list of linked directories could not be read.
#[derive(Debug)]
pub enum FileError {
    FileOpenError(std::io::Error),
    SerdeJsonError(serde_json::Error),
    MissingLinkedPathsError,
}

/// Why watching the list of linked directories failed; each holds the
/// cause in text form.
#[derive(Debug)]
pub enum FileWatcherError {
    DebouncerCreationError(String),
    SendError(String),
    WatchError(String),
    RecvError(String),
}

/// Why the latency to the gateway could not be measured.
#[derive(Debug)]
pub enum MeasureLatencyError {
    CommandError(std::io::Error),
    ParseError(FromUtf8Error),
    AvgLatencyNotFound,
    DefaultGatewayError,
    Other(String),
}

/// Why something could not be sent.
#[derive(Debug)]
pub enum SendError {
    NetworkError(String),
    IoError(String),
}

impl DirectoryError {
    /// The error in words: an I/O error speaks for itself.
    pub fn message(&self) -> (text: String)
        ensures
            self is RecvError ==> text@ == "Failed to receive the directory path."@,
    {
        match self {
            DirectoryError::Io(cause) => cause.to_string(),
            DirectoryError::RecvError(_) => String::from_str("Failed to receive the directory path."),
        }
    }
}

impl FileError {
    /// The error in words.
    pub fn message(&self) -> (text: String)
        ensures
            text@ == match self {
                FileError::FileOpenError(_) => "failed to open file"@,
                FileError::SerdeJsonError(_) => "failed serialize json json"@,
                FileError::MissingLinkedPathsError => "missing 'linked_paths' field in the JSON"@,
            },
    {
        match self {
            FileError::FileOpenError(_) => String::from_str("failed to open file"),
            FileError::SerdeJsonError(_) => String::from_str("failed serialize json json"),
            FileError::MissingLinkedPathsError => String::from_str(
                "missing 'linked_paths' field in the JSON",
            ),
        }
    }
}

impl FileWatcherError {
    /// The error in words; the cause is not part of them.
    pub fn message(&self) -> (text: String)
        ensures
            text@ == match self {
                FileWatcherError::DebouncerCreationError(_) => "Failed to create debouncer"@,
                FileWatcherError::SendError(_) => "Failed to send file change event"@,
                FileWatcherError::WatchError(_) => "Failed to watch path"@,
                FileWatcherError::RecvError(_) => "Failed to receive file events"@,
            },
    {
        match self {
            FileWatcherError::DebouncerCreationError(_) => String::from_str("Failed to create debouncer"),
            FileWatcherError::SendError(_) => String::from_str("Failed to send file change event"),
            FileWatcherError::WatchError(_) => String::from_str("Failed to watch path"),
            FileWatcherError::RecvError(_) => String::from_str("Failed to receive file events"),
        }
    }
}

impl MeasureLatencyError {
    /// The error in words; where it has a cause, the cause's own words follow.
    pub fn message(&self) -> (text: String)
        ensures
            match self {
                MeasureLatencyError::CommandError(_) => "Failed to execute command: "@.is_prefix_of(text@),
                MeasureLatencyError::ParseError(_) => "Failed to parse output: "@.is_prefix_of(text@),
                MeasureLatencyError::AvgLatencyNotFound => text@ == "Average latency not found in output"@,
                MeasureLatencyError::DefaultGatewayError => text@ == "Failed to get default gateway"@,
                MeasureLatencyError::Other(detail) => text@ == "Error occurred: "@ + detail@,
            },
    {
        match self {
            MeasureLatencyError::CommandError(cause) => {
                let mut text = String::from_str("Failed to execute command: ");
                text.append(cause.to_string().as_str());
                text
            },
            MeasureLatencyError::ParseError(cause) => {
                let mut text = String::from_str("Failed to parse output: ");
                text.append(cause.to_string().as_str());
                text
            },
            MeasureLatencyError::AvgLatencyNotFound => String::from_str(
                "Average latency not found in output",
            ),
            MeasureLatencyError::DefaultGatewayError => String::from_str("Failed to get default gateway"),
            MeasureLatencyError::Other(detail) => {
                let mut text = String::from_str("Error occurred: ");
                text.append(detail.as_str());
                text
            },
        }
    }
}

impl SendError {
    /// The error in words, with its detail.
    pub fn message(&self) -> (text: String)
        ensures
            text@ == match self {
                SendError::NetworkError(detail) => "Network error: "@ + detail@,
                SendError::IoError(detail) => "I/O error: "@ + detail@,
            },
    {
        match self {
            SendError::NetworkError(detail) => {
                let mut text = String::from_str("Network error: ");
                text.append(detail.as_str());
                text
            },
            SendError::IoError(detail) => {
                let mut text = String::from_str("I/O error: ");
                text.append(detail.as_str());
                text
            },
        }
    }
}

} // verus!
