//! Arguments of the multipart operations, and the check of a file path
//! that every single-object operation shares.

use vstd::prelude::*;

use crate::error::is_a_directory;
use crate::error::Error;
use crate::error::ErrorView;
use crate::error::Operation;
use crate::text::ends_with;
use crate::text::str_ends_with;

verus! {

/// What construction of arguments for the single-object operation `op`
/// answers on `path`: the error that a directory path raises, or nothing.
pub open spec fn file_path_error(op: Operation, path: Seq<char>) -> Option<ErrorView> {
    if ends_with(path, '/') {
        Some(is_a_directory(op, path))
    } else {
        None
    }
}

/// Checks that `path` names a single object, for the arguments of `op`.
pub fn check_file_path(op: Operation, path: &str) -> (r: Result<(), Error>)
    ensures
        match file_path_error(op, path@) {
            Some(e) => r is Err && r->Err_0@ == e,
            None => r is Ok,
        },
{
    if str_ends_with(path, '/') {
        Err(Error::is_a_directory(op, path))
    } else {
        Ok(())
    }
}

/// One uploaded part of a multipart upload: what `write_multipart` returns
/// and `complete_multipart` consumes.
#[derive(Debug, Clone, Default, PartialEq, Eq)]
pub struct ObjectPart {
    part_number: usize,
    etag: String,
}

impl View for ObjectPart {
    type V = (usize, Seq<char>);

    /// The part number and the entity tag.
    closed spec fn view(&self) -> (usize, Seq<char>) {
        (self.part_number, self.etag@)
    }
}

impl ObjectPart {
    pub fn new(part_number: usize, etag: &str) -> (p: Self)
        ensures
            p@ == (part_number, etag@),
    {
        Self { part_number, etag: etag.to_owned() }
    }

    pub fn part_number(&self) -> (n: usize)
        ensures
            n == self@.0,
    {
        self.part_number
    }

    pub fn etag(&self) -> (e: &str)
        ensures
            e@ == self@.1,
    {
        self.etag.as_str()
    }
}

/// The parts of `parts`, each by its view, in order.
pub open spec fn parts_view(parts: Seq<ObjectPart>) -> Seq<(usize, Seq<char>)> {
    parts.map_values(|p: ObjectPart| p@)
}

/// Whether the part numbers strictly ascend, as completion asks: the order of
/// the parts is the order in which they are concatenated.
pub open spec fn parts_ascend(parts: Seq<(usize, Seq<char>)>) -> bool {
    forall|i: int, j: int| 0 <= i < j < parts.len() ==> parts[i].0 < parts[j].0
}

/// Args for the `create_multipart` operation.
///
/// The path must be normalized.
#[derive(Debug, Clone, Default)]
pub struct OpCreateMultipart {
    path: String,
}

impl View for OpCreateMultipart {
    type V = Seq<char>;

    /// The path of the object to upload.
    closed spec fn view(&self) -> Seq<char> {
        self.path@
    }
}

impl OpCreateMultipart {
    /// Create a new `OpCreateMultipart`.
    ///
    /// If input path is not a file path, an error will be returned.
    pub fn new(path: &str) -> (r: Result<Self, Error>)
        ensures
            match file_path_error(Operation::CreateMultipart, path@) {
                Some(e) => r is Err && r->Err_0@ == e,
                None => r is Ok && r->Ok_0@ == path@,
            },
    {
        match check_file_path(Operation::CreateMultipart, path) {
            Err(e) => Err(e),
            Ok(()) => Ok(Self { path: path.to_owned() }),
        }
    }

    /// Get path from option.
    pub fn path(&self) -> (p: &str)
        ensures
            p@ == self@,
    {
        self.path.as_str()
    }
}

/// What an [`OpWriteMultipart`] is, as plain values.
pub struct WriteMultipartView {
    pub path: Seq<char>,
    pub upload_id: Seq<char>,
    pub part_number: usize,
    pub size: u64,
}

/// Args for the `write_multipart` operation.
///
/// The path must be normalized.
#[derive(Debug, Clone, Default)]
pub struct OpWriteMultipart {
    path: String,
    upload_id: String,
    part_number: usize,
    size: u64,
}

impl View for OpWriteMultipart {
    type V = WriteMultipartView;

    closed spec fn view(&self) -> WriteMultipartView {
        WriteMultipartView {
            path: self.path@,
            upload_id: self.upload_id@,
            part_number: self.part_number,
            size: self.size,
        }
    }
}

impl OpWriteMultipart {
    /// Create a new `OpWriteMultipart`.
    ///
    /// If input path is not a file path, an error will be returned.
    pub fn new(path: &str, upload_id: &str, part_number: usize, size: u64) -> (r: Result<
        Self,
        Error,
    >)
        ensures
            match file_path_error(Operation::WriteMultipart, path@) {
                Some(e) => r is Err && r->Err_0@ == e,
                None => r is Ok && r->Ok_0@ == (WriteMultipartView {
                    path: path@,
                    upload_id: upload_id@,
                    part_number,
                    size,
                }),
            },
    {
        match check_file_path(Operation::WriteMultipart, path) {
            Err(e) => Err(e),
            Ok(()) => Ok(
                Self {
                    path: path.to_owned(),
                    upload_id: upload_id.to_owned(),
                    part_number,
                    size,
                },
            ),
        }
    }

    /// Get path from option.
    pub fn path(&self) -> (p: &str)
        ensures
            p@ == self@.path,
    {
        self.path.as_str()
    }

    /// Get upload_id from option.
    pub fn upload_id(&self) -> (id: &str)
        ensures
            id@ == self@.upload_id,
    {
        self.upload_id.as_str()
    }

    /// Get part_number from option.
    pub fn part_number(&self) -> (n: usize)
        ensures
            n == self@.part_number,
    {
        self.part_number
    }

    /// Get size from option.
    pub fn size(&self) -> (n: u64)
        ensures
            n == self@.size,
    {
        self.size
    }
}

/// What an [`OpCompleteMultipart`] is, as plain values.
pub struct CompleteMultipartView {
    pub path: Seq<char>,
    pub upload_id: Seq<char>,
    /// The parts in the order of concatenation.
    pub parts: Seq<ObjectPart>,
}

/// Args for the `complete_multipart` operation.
///
/// The path must be normalized.
#[derive(Debug, Clone, Default)]
pub struct OpCompleteMultipart {
    path: String,
    upload_id: String,
    parts: Vec<ObjectPart>,
}

impl View for OpCompleteMultipart {
    type V = CompleteMultipartView;

    closed spec fn view(&self) -> CompleteMultipartView {
        CompleteMultipartView {
            path: self.path@,
            upload_id: self.upload_id@,
            parts: self.parts@,
        }
    }
}

impl OpCompleteMultipart {
    /// Create a new `OpCompleteMultipart`. The parts are kept in the order
    /// given.
    ///
    /// If input path is not a file path, an error will be returned.
    pub fn new(path: &str, upload_id: &str, parts: Vec<ObjectPart>) -> (r: Result<Self, Error>)
        ensures
            match file_path_error(Operation::CompleteMultipart, path@) {
                Some(e) => r is Err && r->Err_0@ == e,
                None => r is Ok && r->Ok_0@ == (CompleteMultipartView {
                    path: path@,
                    upload_id: upload_id@,
                    parts: parts@,
                }),
            },
    {
        match check_file_path(Operation::CompleteMultipart, path) {
            Err(e) => Err(e),
            Ok(()) => Ok(Self { path: path.to_owned(), upload_id: upload_id.to_owned(), parts }),
        }
    }

    /// Get path from option.
    pub fn path(&self) -> (p: &str)
        ensures
            p@ == self@.path,
    {
        self.path.as_str()
    }

    /// Get upload_id from option.
    pub fn upload_id(&self) -> (id: &str)
        ensures
            id@ == self@.upload_id,
    {
        self.upload_id.as_str()
    }

    /// Get parts from option.
    pub fn parts(&self) -> (p: &[ObjectPart])
        ensures
            p@ == self@.parts,
    {
        self.parts.as_slice()
    }

    /// Whether the part numbers strictly ascend.
    pub fn parts_in_order(&self) -> (r: bool)
        ensures
            r == parts_ascend(parts_view(self@.parts)),
    {
        let n = self.parts.len();
        if n == 0 {
            return true;
        }
        let mut i: usize = 1;
        while i < n
            invariant
                1 <= i <= n,
                n == self.parts@.len(),
                forall|k: int| 0 < k < i ==> self.parts@[k - 1]@.0 < (#[trigger] self.parts@[k])@.0,
            decreases n - i,
        {
            if self.parts[i - 1].part_number >= self.parts[i].part_number {
                assert(!(parts_view(self.parts@)[i - 1].0 < parts_view(self.parts@)[i as int].0));
                return false;
            }
            i = i + 1;
        }
        proof {
            lemma_adjacent_ascend(parts_view(self.parts@));
        }
        true
    }
}

/// Part numbers that ascend from each part to the next ascend throughout.
pub proof fn lemma_adjacent_ascend(parts: Seq<(usize, Seq<char>)>)
    requires
        forall|k: int| 0 < k < parts.len() ==> parts[k - 1].0 < (#[trigger] parts[k]).0,
    ensures
        parts_ascend(parts),
{
    assert forall|i: int, j: int| 0 <= i < j < parts.len() implies parts[i].0 < parts[j].0 by {
        lemma_ascend_between(parts, i, j);
    }
}

proof fn lemma_ascend_between(parts: Seq<(usize, Seq<char>)>, i: int, j: int)
    requires
        forall|k: int| 0 < k < parts.len() ==> parts[k - 1].0 < (#[trigger] parts[k]).0,
        0 <= i < j < parts.len(),
    ensures
        parts[i].0 < parts[j].0,
    decreases j - i,
{
    if j - 1 > i {
        lemma_ascend_between(parts, i, j - 1);
    }
    assert(parts[j - 1].0 < parts[j].0);
}

/// What an [`OpAbortMultipart`] is, as plain values.
pub struct AbortMultipartView {
    pub path: Seq<char>,
    pub upload_id: Seq<char>,
}

/// Args for the `abort_multipart` operation.
///
/// The path must be normalized.
#[derive(Debug, Clone, Default)]
pub struct OpAbortMultipart {
    path: String,
    upload_id: String,
}

impl View for OpAbortMultipart {
    type V = AbortMultipartView;

    closed spec fn view(&self) -> AbortMultipartView {
        AbortMultipartView { path: self.path@, upload_id: self.upload_id@ }
    }
}

impl OpAbortMultipart {
    /// Create a new `OpAbortMultipart`.
    ///
    /// If input path is not a file path, an error will be returned.
    pub fn new(path: &str, upload_id: &str) -> (r: Result<Self, Error>)
        ensures
            match file_path_error(Operation::AbortMultipart, path@) {
                Some(e) => r is Err && r->Err_0@ == e,
                None => r is Ok && r->Ok_0@ == (AbortMultipartView {
                    path: path@,
                    upload_id: upload_id@,
                }),
            },
    {
        match check_file_path(Operation::AbortMultipart, path) {
            Err(e) => Err(e),
            Ok(()) => Ok(Self { path: path.to_owned(), upload_id: upload_id.to_owned() }),
        }
    }

    /// Get path from option.
    pub fn path(&self) -> (p: &str)
        ensures
            p@ == self@.path,
    {
        self.path.as_str()
    }

    /// Get upload_id from option.
    pub fn upload_id(&self) -> (id: &str)
        ensures
            id@ == self@.upload_id,
    {
        self.upload_id.as_str()
    }
}

} // verus!
