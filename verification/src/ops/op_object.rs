//! Arguments of `create`, `read`, `write`, `stat`, `list` and `presign`.

use vstd::prelude::*;

use crate::error::Error;
use crate::error::Operation;
use crate::layers::backoff::Delay;
use crate::ops::op_multipart::check_file_path;
use crate::ops::op_multipart::file_path_error;

verus! {

/// Args for the `create` operation: create an empty object.
///
/// The path must be normalized.
#[derive(Debug, Clone, Default)]
pub struct OpCreate {
    path: String,
}

impl View for OpCreate {
    type V = Seq<char>;

    /// The path of the object to create.
    closed spec fn view(&self) -> Seq<char> {
        self.path@
    }
}

impl OpCreate {
    /// Create a new `OpCreate`.
    ///
    /// If input path is not a file path, an error will be returned.
    pub fn new(path: &str) -> (r: Result<Self, Error>)
        ensures
            match file_path_error(Operation::Create, path@) {
                Some(e) => r is Err && r->Err_0@ == e,
                None => r is Ok && r->Ok_0@ == path@,
            },
    {
        match check_file_path(Operation::Create, path) {
            Err(e) => Err(e),
            Ok(()) => Ok(Self { path: path.to_owned() }),
        }
    }

    /// Get path from option.
    pub fn path(&self) -> (p: &str)
        ensures
            p@ == self@,
    {
        self.path.as_str()
    }
}

/// What an [`OpRead`] is, as plain values.
pub struct ReadView {
    pub path: Seq<char>,
    /// Where the range to read starts; `None` with a size reads the last
    /// `size` bytes.
    pub offset: Option<u64>,
    /// How many bytes to read; `None` reads to the end.
    pub size: Option<u64>,
}

/// Args for the `read` operation.
///
/// The path must be normalized.
#[derive(Debug, Clone, Default)]
pub struct OpRead {
    path: String,
    offset: Option<u64>,
    size: Option<u64>,
}

impl View for OpRead {
    type V = ReadView;

    closed spec fn view(&self) -> ReadView {
        ReadView { path: self.path@, offset: self.offset, size: self.size }
    }
}

impl OpRead {
    /// Create a new `OpRead`.
    ///
    /// If input path is not a file path, an error will be returned.
    pub fn new(path: &str, offset: Option<u64>, size: Option<u64>) -> (r: Result<Self, Error>)
        ensures
            match file_path_error(Operation::Read, path@) {
                Some(e) => r is Err && r->Err_0@ == e,
                None => r is Ok && r->Ok_0@ == (ReadView { path: path@, offset, size }),
            },
    {
        match check_file_path(Operation::Read, path) {
            Err(e) => Err(e),
            Ok(()) => Ok(Self { path: path.to_owned(), offset, size }),
        }
    }

    /// Get path from option.
    pub fn path(&self) -> (p: &str)
        ensures
            p@ == self@.path,
    {
        self.path.as_str()
    }

    /// Get offset from option.
    pub fn offset(&self) -> (n: Option<u64>)
        ensures
            n == self@.offset,
    {
        self.offset
    }

    /// Get size from option.
    pub fn size(&self) -> (n: Option<u64>)
        ensures
            n == self@.size,
    {
        self.size
    }
}

/// Args for the `write` operation. The bytes come from a reader that is
/// handed over separately.
///
/// The path must be normalized.
#[derive(Debug, Clone, Default)]
pub struct OpWrite {
    path: String,
    size: u64,
}

impl View for OpWrite {
    type V = (Seq<char>, u64);

    /// The path and the number of bytes to write.
    closed spec fn view(&self) -> (Seq<char>, u64) {
        (self.path@, self.size)
    }
}

impl OpWrite {
    /// Create a new `OpWrite`.
    ///
    /// If input path is not a file path, an error will be returned.
    pub fn new(path: &str, size: u64) -> (r: Result<Self, Error>)
        ensures
            match file_path_error(Operation::Write, path@) {
                Some(e) => r is Err && r->Err_0@ == e,
                None => r is Ok && r->Ok_0@ == (path@, size),
            },
    {
        match check_file_path(Operation::Write, path) {
            Err(e) => Err(e),
            Ok(()) => Ok(Self { path: path.to_owned(), size }),
        }
    }

    /// Get path from option.
    pub fn path(&self) -> (p: &str)
        ensures
            p@ == self@.0,
    {
        self.path.as_str()
    }

    /// Get size from option.
    pub fn size(&self) -> (n: u64)
        ensures
            n == self@.1,
    {
        self.size
    }
}

/// Args for the `stat` operation.
///
/// The path must be normalized. A path that ends with `/` names a directory.
#[derive(Debug, Clone, Default)]
pub struct OpStat {
    path: String,
}

impl View for OpStat {
    type V = Seq<char>;

    /// The path to describe.
    closed spec fn view(&self) -> Seq<char> {
        self.path@
    }
}

impl OpStat {
    /// Create a new `OpStat`. Every path is accepted.
    pub fn new(path: &str) -> (r: Result<Self, Error>)
        ensures
            r is Ok,
            r->Ok_0@ == path@,
    {
        Ok(Self { path: path.to_owned() })
    }

    /// Get path from option.
    pub fn path(&self) -> (p: &str)
        ensures
            p@ == self@,
    {
        self.path.as_str()
    }
}

/// Args for the `list` operation: the entries under `path` as a prefix.
///
/// The path must be normalized.
#[derive(Debug, Clone, Default)]
pub struct OpList {
    path: String,
}

impl View for OpList {
    type V = Seq<char>;

    /// The prefix to list.
    closed spec fn view(&self) -> Seq<char> {
        self.path@
    }
}

impl OpList {
    /// Create a new `OpList`. Every path is accepted.
    pub fn new(path: &str) -> (r: Result<Self, Error>)
        ensures
            r is Ok,
            r->Ok_0@ == path@,
    {
        Ok(Self { path: path.to_owned() })
    }

    /// Get path from option.
    pub fn path(&self) -> (p: &str)
        ensures
            p@ == self@,
    {
        self.path.as_str()
    }
}

/// What an [`OpPresign`] is, as plain values.
pub struct PresignView {
    pub path: Seq<char>,
    /// The operation that the signed URL allows.
    pub operation: Operation,
    /// For how long the signed URL is valid, in nanoseconds.
    pub expire: nat,
}

/// Args for the `presign` operation: a signed URL, valid for a limited time,
/// that allows one operation on one object.
///
/// The path must be normalized.
#[derive(Debug, Clone)]
pub struct OpPresign {
    path: String,
    operation: Operation,
    expire: Delay,
}

impl View for OpPresign {
    type V = PresignView;

    closed spec fn view(&self) -> PresignView {
        PresignView { path: self.path@, operation: self.operation, expire: self.expire@ }
    }
}

impl OpPresign {
    /// Create a new `OpPresign`.
    ///
    /// If input path is not a file path, an error will be returned.
    pub fn new(path: &str, operation: Operation, expire: Delay) -> (r: Result<Self, Error>)
        ensures
            match file_path_error(Operation::Presign, path@) {
                Some(e) => r is Err && r->Err_0@ == e,
                None => r is Ok && r->Ok_0@ == (PresignView {
                    path: path@,
                    operation,
                    expire: expire@,
                }),
            },
    {
        match check_file_path(Operation::Presign, path) {
            Err(e) => Err(e),
            Ok(()) => Ok(Self { path: path.to_owned(), operation, expire }),
        }
    }

    /// Get path from option.
    pub fn path(&self) -> (p: &str)
        ensures
            p@ == self@.path,
    {
        self.path.as_str()
    }

    /// Get operation from option.
    pub fn operation(&self) -> (op: Operation)
        ensures
            op == self@.operation,
    {
        self.operation
    }

    /// Get expire from option.
    pub fn expire(&self) -> (d: Delay)
        ensures
            d@ == self@.expire,
    {
        self.expire
    }
}

} // verus!
