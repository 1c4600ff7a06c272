use live_reload::session::SendOutcome;
use live_reload::transport::{classify_failure, classify_send, find_io_kind};
use std::io::{Error, ErrorKind};

fn websocket_failure(kind: ErrorKind) -> axum::Error {
    axum::Error::new(tungstenite::Error::Io(Error::from(kind)))
}

#[test]
fn successful_send_is_delivered() {
    assert_eq!(classify_send(Ok(())), SendOutcome::Delivered);
}

#[test]
fn broken_pipe_on_a_websocket_write_is_classified_as_broken_pipe() {
    let err = websocket_failure(ErrorKind::BrokenPipe);
    assert_eq!(classify_send(Err(err)), SendOutcome::BrokenPipe);
}

#[test]
fn other_io_error_on_a_websocket_write_is_classified_as_failed() {
    let err = websocket_failure(ErrorKind::ConnectionReset);
    assert_eq!(classify_send(Err(err)), SendOutcome::Failed);
}

#[test]
fn websocket_error_without_an_io_error_is_classified_as_failed() {
    let closed = axum::Error::new(tungstenite::Error::ConnectionClosed);
    assert_eq!(classify_send(Err(closed)), SendOutcome::Failed);
    let already = axum::Error::new(tungstenite::Error::AlreadyClosed);
    assert_eq!(classify_send(Err(already)), SendOutcome::Failed);
}

#[test]
fn broken_pipe_io_error_is_classified_as_broken_pipe() {
    let err = axum::Error::new(Error::from(ErrorKind::BrokenPipe));
    assert_eq!(classify_send(Err(err)), SendOutcome::BrokenPipe);
}

#[test]
fn other_io_error_is_classified_as_failed() {
    let err = axum::Error::new(Error::from(ErrorKind::ConnectionReset));
    assert_eq!(classify_send(Err(err)), SendOutcome::Failed);
}

#[test]
fn error_that_is_no_io_error_is_classified_as_failed() {
    let err = axum::Error::new("protocol violation");
    assert_eq!(classify_send(Err(err)), SendOutcome::Failed);
}

#[test]
fn io_kind_is_found_in_the_cause_and_in_its_cause() {
    assert_eq!(
        find_io_kind(&axum::Error::new(Error::from(ErrorKind::TimedOut))),
        Some(ErrorKind::TimedOut)
    );
    assert_eq!(find_io_kind(&websocket_failure(ErrorKind::BrokenPipe)), Some(ErrorKind::BrokenPipe));
    assert_eq!(find_io_kind(&axum::Error::new(tungstenite::Error::Utf8)), None);
    assert_eq!(find_io_kind(&axum::Error::new("no cause")), None);
}

#[test]
fn io_error_in_the_cause_comes_before_one_nested_in_it() {
    let inner = Error::from(ErrorKind::BrokenPipe);
    let outer = Error::new(ErrorKind::Other, inner);
    assert_eq!(find_io_kind(&axum::Error::new(outer)), Some(ErrorKind::Other));
}

#[test]
fn failure_kinds_map_to_outcomes() {
    assert_eq!(classify_failure(Some(ErrorKind::BrokenPipe)), SendOutcome::BrokenPipe);
    assert_eq!(classify_failure(Some(ErrorKind::TimedOut)), SendOutcome::Failed);
    assert_eq!(classify_failure(None), SendOutcome::Failed);
}
