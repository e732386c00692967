//! The error taxonomy shared by every accessor and layer.

use vstd::prelude::*;

use crate::http_util::number::decimal;
use crate::http_util::number::push_decimal;

verus! {

/// The class of a failure. Only `Interrupted` marks a transient condition.
#[derive(Clone, Copy, Debug, PartialEq, Eq, Structural)]
pub enum ErrorKind {
    /// A transient interruption: the same call may succeed if repeated.
    Interrupted,
    /// The object does not exist.
    NotFound,
    /// Authentication or authorisation failed.
    PermissionDenied,
    /// A precondition conflict: the object is already there.
    AlreadyExists,
    /// A bad path or malformed operation arguments.
    InvalidInput,
    /// The operation is not offered by the accessor.
    Unsupported,
    /// Anything else.
    Other,
}

/// The operations an accessor offers.
#[derive(Clone, Copy, Debug, PartialEq, Eq, Structural)]
pub enum Operation {
    Metadata,
    Create,
    Read,
    Write,
    Stat,
    Delete,
    List,
    Presign,
    CreateMultipart,
    WriteMultipart,
    CompleteMultipart,
    AbortMultipart,
}

impl Operation {
    /// The name under which the operation appears in error text.
    pub open spec fn spec_name(self) -> Seq<char> {
        match self {
            Operation::Metadata => "metadata"@,
            Operation::Create => "create"@,
            Operation::Read => "read"@,
            Operation::Write => "write"@,
            Operation::Stat => "stat"@,
            Operation::Delete => "delete"@,
            Operation::List => "list"@,
            Operation::Presign => "presign"@,
            Operation::CreateMultipart => "create_multipart"@,
            Operation::WriteMultipart => "write_multipart"@,
            Operation::CompleteMultipart => "complete_multipart"@,
            Operation::AbortMultipart => "abort_multipart"@,
        }
    }

    /// The name under which the operation appears in error text.
    pub fn name(self) -> (s: &'static str)
        ensures
            s@ == self.spec_name(),
    {
        match self {
            Operation::Metadata => "metadata",
            Operation::Create => "create",
            Operation::Read => "read",
            Operation::Write => "write",
            Operation::Stat => "stat",
            Operation::Delete => "delete",
            Operation::List => "list",
            Operation::Presign => "presign",
            Operation::CreateMultipart => "create_multipart",
            Operation::WriteMultipart => "write_multipart",
            Operation::CompleteMultipart => "complete_multipart",
            Operation::AbortMultipart => "abort_multipart",
        }
    }
}

/// What an [`Error`] is, as plain values.
pub struct ErrorView {
    pub kind: ErrorKind,
    /// The operation that failed; `None` for a configuration error.
    pub operation: Option<Operation>,
    /// The object path, or the configuration field the error is about.
    pub subject: Seq<char>,
    /// The HTTP status the service answered with, where there was one.
    pub status: Option<u16>,
    pub description: Seq<char>,
}

/// A failure of an operation or of configuration.
#[derive(Clone, Debug, PartialEq, Eq)]
pub struct Error {
    kind: ErrorKind,
    operation: Option<Operation>,
    subject: String,
    status: Option<u16>,
    description: String,
}

impl View for Error {
    type V = ErrorView;

    closed spec fn view(&self) -> ErrorView {
        ErrorView {
            kind: self.kind,
            operation: self.operation,
            subject: self.subject@,
            status: self.status,
            description: self.description@,
        }
    }
}

/// The error of `kind` that `op` on `path` raises with `description`.
pub open spec fn object_error(
    kind: ErrorKind,
    op: Operation,
    path: Seq<char>,
    description: Seq<char>,
) -> ErrorView {
    ErrorView { kind, operation: Some(op), subject: path, status: None, description }
}

/// The error that construction of arguments for the single-object operation
/// `op` raises on a directory path.
pub open spec fn is_a_directory(op: Operation, path: Seq<char>) -> ErrorView {
    object_error(ErrorKind::InvalidInput, op, path, "Is a directory"@)
}

/// The error of a backend whose configuration field `field` is unusable.
pub open spec fn config_error(field: Seq<char>, description: Seq<char>) -> ErrorView {
    ErrorView {
        kind: ErrorKind::Other,
        operation: None,
        subject: field,
        status: None,
        description,
    }
}

/// The error with which an accessor answers an operation it does not offer.
pub open spec fn unsupported(op: Operation, path: Seq<char>) -> ErrorView {
    object_error(ErrorKind::Unsupported, op, path, "operation is not supported"@)
}

/// The status of a response in the text of an error; nothing where there
/// was no response.
pub open spec fn status_note(status: Option<u16>) -> Seq<char> {
    match status {
        Some(n) => " (status "@ + decimal(n as nat) + ")"@,
        None => Seq::<char>::empty(),
    }
}

/// The text of an error: the operation (or `config`), the subject, the
/// status where there is one, and the description.
pub open spec fn message_of(e: ErrorView) -> Seq<char> {
    let head = match e.operation {
        Some(op) => op.spec_name(),
        None => "config"@,
    };
    head + " "@ + e.subject + status_note(e.status) + ": "@ + e.description
}

impl Error {
    /// An error of `kind` raised by `op` on `path`.
    pub fn new(kind: ErrorKind, op: Operation, path: &str, description: &str) -> (e: Error)
        ensures
            e@ == object_error(kind, op, path@, description@),
    {
        Error {
            kind,
            operation: Some(op),
            subject: path.to_owned(),
            status: None,
            description: description.to_owned(),
        }
    }

    /// The error of a single-object operation that was given a directory path.
    pub fn is_a_directory(op: Operation, path: &str) -> (e: Error)
        ensures
            e@ == is_a_directory(op, path@),
    {
        Error::new(ErrorKind::InvalidInput, op, path, "Is a directory")
    }

    /// The error of an operation that the accessor does not offer.
    pub fn unsupported(op: Operation, path: &str) -> (e: Error)
        ensures
            e@ == unsupported(op, path@),
            e@.operation == Some(op),
    {
        Error::new(ErrorKind::Unsupported, op, path, "operation is not supported")
    }

    /// An error about the configuration field `field`.
    pub fn config(field: &str, description: &str) -> (e: Error)
        ensures
            e@ == config_error(field@, description@),
    {
        Error {
            kind: ErrorKind::Other,
            operation: None,
            subject: field.to_owned(),
            status: None,
            description: description.to_owned(),
        }
    }

    /// An error of `kind` with which the service answered `op` on `path`.
    pub fn service(
        kind: ErrorKind,
        op: Operation,
        path: &str,
        status: u16,
        description: &str,
    ) -> (e: Error)
        ensures
            e@ == (ErrorView {
                status: Some(status),
                ..object_error(kind, op, path@, description@)
            }),
    {
        Error {
            kind,
            operation: Some(op),
            subject: path.to_owned(),
            status: Some(status),
            description: description.to_owned(),
        }
    }

    pub fn kind(&self) -> (k: ErrorKind)
        ensures
            k == self@.kind,
    {
        self.kind
    }

    pub fn operation(&self) -> (op: Option<Operation>)
        ensures
            op == self@.operation,
    {
        self.operation
    }

    /// The object path, or the configuration field, that the error is about.
    pub fn subject(&self) -> (s: &str)
        ensures
            s@ == self@.subject,
    {
        self.subject.as_str()
    }

    pub fn status(&self) -> (s: Option<u16>)
        ensures
            s == self@.status,
    {
        self.status
    }

    pub fn description(&self) -> (s: &str)
        ensures
            s@ == self@.description,
    {
        self.description.as_str()
    }

    /// Whether a retry may help: exactly the `Interrupted` kind.
    pub fn is_retryable(&self) -> (r: bool)
        ensures
            r == (self@.kind == ErrorKind::Interrupted),
    {
        self.kind == ErrorKind::Interrupted
    }

    /// The error as text. It names the operation and the subject.
    pub fn message(&self) -> (s: String)
        ensures
            s@ == message_of(self@),
    {
        let head = match self.operation {
            Some(op) => op.name(),
            None => "config",
        };
        let s = head.to_owned();
        let s = s.concat(" ");
        let s = s.concat(self.subject.as_str());
        let ghost before = s@;
        let s = match self.status {
            Some(n) => {
                let mut s = s.concat(" (status ");
                push_decimal(&mut s, n as u128);
                let s = s.concat(")");
                assert(s@ =~= before + (" (status "@ + decimal(n as nat) + ")"@));
                s
            },
            None => {
                assert(s@ + Seq::<char>::empty() =~= s@);
                s
            },
        };
        let s = s.concat(": ");
        s.concat(self.description.as_str())
    }
}

} // verus!
