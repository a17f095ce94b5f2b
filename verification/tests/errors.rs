use netshare::errors::{
    DirectoryError, FileError, FileWatcherError, MeasureLatencyError, SendError,
};
use std::io::{Error as IoError, ErrorKind};

#[test]
fn directory_error_in_words() {
    let (tx, mut rx) = tokio::sync::oneshot::channel::<()>();
    drop(tx);
    let closed = rx.try_recv().is_err();
    assert!(closed);
    let (tx, rx) = tokio::sync::oneshot::channel::<()>();
    drop(tx);
    let cause = rx.blocking_recv().expect_err("the sender is gone");
    assert_eq!(
        DirectoryError::RecvError(cause).message(),
        "Failed to receive the directory path."
    );
    let io = IoError::new(ErrorKind::NotFound, "no such directory");
    assert_eq!(DirectoryError::Io(io).message(), "no such directory");
}

#[test]
fn file_error_in_words() {
    let io = IoError::new(ErrorKind::NotFound, "gone");
    assert_eq!(FileError::FileOpenError(io).message(), "failed to open file");
    let json = serde_json::from_str::<u8>("x").expect_err("not a number");
    assert_eq!(FileError::SerdeJsonError(json).message(), "failed serialize json json");
    assert_eq!(
        FileError::MissingLinkedPathsError.message(),
        "missing 'linked_paths' field in the JSON"
    );
}

#[test]
fn file_watcher_error_in_words() {
    let cause = || String::from("cause");
    assert_eq!(
        FileWatcherError::DebouncerCreationError(cause()).message(),
        "Failed to create debouncer"
    );
    assert_eq!(FileWatcherError::SendError(cause()).message(), "Failed to send file change event");
    assert_eq!(FileWatcherError::WatchError(cause()).message(), "Failed to watch path");
    assert_eq!(FileWatcherError::RecvError(cause()).message(), "Failed to receive file events");
}

#[test]
fn measure_latency_error_in_words() {
    let io = IoError::new(ErrorKind::Other, "ping not found");
    assert_eq!(
        MeasureLatencyError::CommandError(io).message(),
        "Failed to execute command: ping not found"
    );
    let utf8 = String::from_utf8(vec![0xff]).expect_err("not UTF-8");
    let expected = format!("Failed to parse output: {}", utf8);
    assert_eq!(MeasureLatencyError::ParseError(utf8).message(), expected);
    assert_eq!(
        MeasureLatencyError::AvgLatencyNotFound.message(),
        "Average latency not found in output"
    );
    assert_eq!(
        MeasureLatencyError::DefaultGatewayError.message(),
        "Failed to get default gateway"
    );
    assert_eq!(
        MeasureLatencyError::Other(String::from("timeout")).message(),
        "Error occurred: timeout"
    );
}

#[test]
fn send_error_in_words() {
    assert_eq!(
        SendError::NetworkError(String::from("unreachable")).message(),
        "Network error: unreachable"
    );
    assert_eq!(SendError::IoError(String::from("broken pipe")).message(), "I/O error: broken pipe");
    assert_eq!(SendError::IoError(String::new()).message(), "I/O error: ");
}
