//! Arguments of `delete`.

use vstd::prelude::*;

use crate::error::Error;
use crate::error::Operation;
use crate::ops::op_multipart::check_file_path;
use crate::ops::op_multipart::file_path_error;

verus! {

/// Args for the `delete` operation.
///
/// The path must be normalized.
#[derive(Debug, Clone, Default)]
pub struct OpDelete {
    path: String,
}

impl View for OpDelete {
    type V = Seq<char>;

    /// The path to delete.
    closed spec fn view(&self) -> Seq<char> {
        self.path@
    }
}

impl OpDelete {
    /// Create a new `OpDelete`.
    ///
    /// If input path is not a file path, an error will be returned.
    pub fn new(path: &str) -> (r: Result<Self, Error>)
        ensures
            match file_path_error(Operation::Delete, path@) {
                Some(e) => r is Err && r->Err_0@ == e,
                None => r is Ok && r->Ok_0@ == path@,
            },
    {
        match check_file_path(Operation::Delete, path) {
            Err(e) => Err(e),
            Ok(()) => Ok(Self { path: path.to_owned() }),
        }
    }

    /// Get path from option.
    pub fn path(&self) -> (p: &str)
        ensures
            p@ == self@,
    {
        self.path.as_str()
    }
}

} // verus!
