//! The errors of a backend that speaks HTTP.

use vstd::prelude::*;

use crate::error::object_error;
use crate::error::Error;
use crate::error::ErrorKind;
use crate::error::ErrorView;
use crate::error::Operation;

verus! {

/// The kind of the error that a response with `status` stands for, where the
/// response is no success: 404 is not-found, 403 is permission-denied, and
/// 500, 502, 503 and 504 are transient conditions of the service.
pub open spec fn kind_of_status(status: u16) -> ErrorKind {
    if status == 404 {
        ErrorKind::NotFound
    } else if status == 403 {
        ErrorKind::PermissionDenied
    } else if status == 500 || status == 502 || status == 503 || status == 504 {
        ErrorKind::Interrupted
    } else {
        ErrorKind::Other
    }
}

/// The error for a response that is no success.
pub open spec fn service_error(op: Operation, path: Seq<char>, status: u16, text: Seq<char>)
    -> ErrorView {
    ErrorView { status: Some(status), ..object_error(kind_of_status(status), op, path, text) }
}

/// The error for a response that is no success: it keeps the operation, the
/// path, the status and what the service wrote.
pub fn parse_error(op: Operation, path: &str, status: u16, text: &str) -> (e: Error)
    ensures
        e@ == service_error(op, path@, status, text@),
{
    let kind = if status == 404 {
        ErrorKind::NotFound
    } else if status == 403 {
        ErrorKind::PermissionDenied
    } else if status == 500 || status == 502 || status == 503 || status == 504 {
        ErrorKind::Interrupted
    } else {
        ErrorKind::Other
    };
    Error::service(kind, op, path, status, text)
}

/// The error of a step that failed before any response came: what the step
/// was, then what went wrong.
pub open spec fn step_error(
    kind: ErrorKind,
    op: Operation,
    path: Seq<char>,
    step: Seq<char>,
    reason: Seq<char>,
) -> ErrorView {
    object_error(kind, op, path, step + ": "@ + reason)
}

fn new_step_error(kind: ErrorKind, op: Operation, path: &str, step: &str, reason: &str) -> (e:
    Error)
    ensures
        e@ == step_error(kind, op, path@, step@, reason@),
{
    let text = step.to_owned().concat(": ").concat(reason);
    Error::new(kind, op, path, text.as_str())
}

/// The error of a request that could not be built. Never retryable.
pub fn new_request_build_error(op: Operation, path: &str, reason: &str) -> (e: Error)
    ensures
        e@ == step_error(ErrorKind::Other, op, path@, "build request"@, reason@),
{
    new_step_error(ErrorKind::Other, op, path, "build request", reason)
}

/// The error of a request that could not be signed. Never retryable.
pub fn new_request_sign_error(op: Operation, path: &str, reason: &str) -> (e: Error)
    ensures
        e@ == step_error(ErrorKind::Other, op, path@, "sign request"@, reason@),
{
    new_step_error(ErrorKind::Other, op, path, "sign request", reason)
}

/// The kind of a transport failure: retryable where the transport says that
/// it is transient (a reset, a refused connection), not otherwise.
pub open spec fn send_error_kind(transient: bool) -> ErrorKind {
    if transient {
        ErrorKind::Interrupted
    } else {
        ErrorKind::Other
    }
}

/// The error of a request that could not be sent.
pub fn new_request_send_error(op: Operation, path: &str, transient: bool, reason: &str) -> (e:
    Error)
    ensures
        e@ == step_error(send_error_kind(transient), op, path@, "send request"@, reason@),
{
    let kind = if transient {
        ErrorKind::Interrupted
    } else {
        ErrorKind::Other
    };
    new_step_error(kind, op, path, "send request", reason)
}

/// The error of a response whose body could not be read to its end. It is
/// of the kind of the failure that stopped the reading.
pub fn new_response_consume_error(op: Operation, path: &str, kind: ErrorKind, reason: &str) -> (e:
    Error)
    ensures
        e@ == step_error(kind, op, path@, "consuming response"@, reason@),
{
    new_step_error(kind, op, path, "consuming response", reason)
}

} // verus!
