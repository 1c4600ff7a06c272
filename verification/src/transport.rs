//! Classifying what the transport reports for a send.
//!
//! The connection hands back either success or an `axum::Error`. The only
//! thing the session's policy reads from such an error is whether an I/O error
//! lies inside it, and of which kind. A failed write on a WebSocket arrives as
//! the WebSocket layer's error around the I/O error, itself boxed in the
//! `axum::Error`, so the I/O error is looked for in the error's cause and in
//! the cause of that cause.

use vstd::prelude::*;
use crate::session::SendOutcome;

verus! {

/// `axum::Error`, carried through as an opaque value.
#[verifier::external_type_specification]
#[verifier::external_body]
pub struct ExAxumError(axum::Error);

/// `std::io::ErrorKind`, with its variants visible so that they can be told
/// apart in verified code.
#[verifier::external_type_specification]
pub struct ExIoErrorKind(std::io::ErrorKind);

/// The kind of the I/O error that is the cause of `err`, if its cause is one.
pub uninterp spec fn cause_io_kind(err: axum::Error) -> Option<std::io::ErrorKind>;

/// The kind of the I/O error that is the cause of the cause of `err`, if
/// there is such a cause and it is one.
pub uninterp spec fn nested_io_kind(err: axum::Error) -> Option<std::io::ErrorKind>;

/// Takes the cause of the error, which `axum::Error` gives as its `source`
/// (the error it was made from), and, where that is a `std::io::Error`, reads
/// its kind with `std::io::Error::kind`. The result is named, not described:
/// it is decided by the error alone.
#[verifier::external_body]
fn io_kind_of_cause(err: &axum::Error) -> (kind: Option<std::io::ErrorKind>)
    ensures
        kind == cause_io_kind(*err),
{
    match std::error::Error::source(err) {
        Some(cause) => match cause.downcast_ref::<std::io::Error>() {
            Some(io) => Some(io.kind()),
            None => None,
        },
        None => None,
    }
}

/// Takes the cause of the error as `io_kind_of_cause` does, then that cause's
/// own `source`, and, where that is a `std::io::Error`, reads its kind with
/// `std::io::Error::kind`. The result is named, not described: it is decided
/// by the error alone.
#[verifier::external_body]
fn io_kind_of_nested_cause(err: &axum::Error) -> (kind: Option<std::io::ErrorKind>)
    ensures
        kind == nested_io_kind(*err),
{
    match std::error::Error::source(err) {
        Some(cause) => match cause.source() {
            Some(nested) => match nested.downcast_ref::<std::io::Error>() {
                Some(io) => Some(io.kind()),
                None => None,
            },
            None => None,
        },
        None => None,
    }
}

/// The kind of the I/O error found inside `err`: that of its cause where the
/// cause is an I/O error, else that of the cause's cause.
pub open spec fn io_kind_inside(err: axum::Error) -> Option<std::io::ErrorKind> {
    first_io_kind(cause_io_kind(err), nested_io_kind(err))
}

/// The first of two kinds that is there.
pub open spec fn first_io_kind(
    direct: Option<std::io::ErrorKind>,
    nested: Option<std::io::ErrorKind>,
) -> Option<std::io::ErrorKind> {
    if direct is Some {
        direct
    } else {
        nested
    }
}

/// The outcome that a failed send stands for, given the kind of the I/O error
/// inside the failure, if there is one. A broken pipe is the one failure that
/// the session tolerates; everything else is fatal to it.
pub open spec fn failure_outcome(kind: Option<std::io::ErrorKind>) -> SendOutcome {
    match kind {
        Some(std::io::ErrorKind::BrokenPipe) => SendOutcome::BrokenPipe,
        _ => SendOutcome::Failed,
    }
}

/// The outcome that the result of a send stands for.
pub open spec fn send_outcome(result: Result<(), axum::Error>) -> SendOutcome {
    match result {
        Ok(_) => SendOutcome::Delivered,
        Err(err) => failure_outcome(io_kind_inside(err)),
    }
}

/// Classifies a failed send by the kind of the I/O error inside it.
pub fn classify_failure(kind: Option<std::io::ErrorKind>) -> (outcome: SendOutcome)
    ensures
        outcome == failure_outcome(kind),
{
    match kind {
        Some(std::io::ErrorKind::BrokenPipe) => SendOutcome::BrokenPipe,
        _ => SendOutcome::Failed,
    }
}

/// Finds the kind of the I/O error inside a send failure.
pub fn find_io_kind(err: &axum::Error) -> (kind: Option<std::io::ErrorKind>)
    ensures
        kind == io_kind_inside(*err),
{
    let direct = io_kind_of_cause(err);
    match direct {
        Some(_) => direct,
        None => io_kind_of_nested_cause(err),
    }
}

/// Classifies the result of a send. Success is `Delivered`. A failure is
/// `BrokenPipe` where the I/O error inside it is a broken pipe, and `Failed`
/// in every other case, an error without an I/O error inside it among them.
pub fn classify_send(result: Result<(), axum::Error>) -> (outcome: SendOutcome)
    ensures
        outcome == send_outcome(result),
        result is Ok <==> outcome is Delivered,
{
    match result {
        Ok(_) => SendOutcome::Delivered,
        Err(err) => {
            let kind = find_io_kind(&err);
            classify_failure(kind)
        },
    }
}

} // verus!
