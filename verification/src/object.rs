//! What is known of an object.

use vstd::prelude::*;

verus! {

/// Whether an object is a file or a directory.
#[allow(clippy::upper_case_acronyms)]
#[derive(Clone, Copy, Debug, PartialEq, Eq, Structural)]
pub enum ObjectMode {
    /// A file: it holds bytes.
    FILE,
    /// A directory: it holds other objects.
    DIR,
    /// Not known.
    Unknown,
}

/// What an [`ObjectMetadata`] is, as plain values.
pub struct ObjectMetadataView {
    pub mode: ObjectMode,
    pub content_length: Option<u64>,
    pub etag: Option<Seq<char>>,
    pub content_md5: Option<Seq<char>>,
    /// When the object was last modified, in seconds since the start of
    /// 1970, UTC.
    pub last_modified: Option<i64>,
}

/// An optional text, by its characters.
pub open spec fn text_view(t: Option<String>) -> Option<Seq<char>> {
    match t {
        Some(s) => Some(s@),
        None => None,
    }
}

/// The metadata of an object of which only the mode is known.
pub open spec fn bare(mode: ObjectMode) -> ObjectMetadataView {
    ObjectMetadataView {
        mode,
        content_length: None,
        etag: None,
        content_md5: None,
        last_modified: None,
    }
}

/// The metadata of an object, as `stat` or a listing produced it.
#[derive(Clone, Debug, PartialEq, Eq)]
pub struct ObjectMetadata {
    mode: ObjectMode,
    content_length: Option<u64>,
    etag: Option<String>,
    content_md5: Option<String>,
    last_modified: Option<i64>,
}

impl View for ObjectMetadata {
    type V = ObjectMetadataView;

    closed spec fn view(&self) -> ObjectMetadataView {
        ObjectMetadataView {
            mode: self.mode,
            content_length: self.content_length,
            etag: text_view(self.etag),
            content_md5: text_view(self.content_md5),
            last_modified: self.last_modified,
        }
    }
}

impl ObjectMetadata {
    /// Metadata of which only the mode is known.
    pub fn new(mode: ObjectMode) -> (m: Self)
        ensures
            m@ == bare(mode),
    {
        ObjectMetadata {
            mode,
            content_length: None,
            etag: None,
            content_md5: None,
            last_modified: None,
        }
    }

    pub fn mode(&self) -> (mode: ObjectMode)
        ensures
            mode == self@.mode,
    {
        self.mode
    }

    pub fn set_mode(&mut self, mode: ObjectMode)
        ensures
            final(self)@ == (ObjectMetadataView { mode, ..old(self)@ }),
    {
        self.mode = mode;
    }

    /// The length of the content in bytes, if known.
    pub fn content_length(&self) -> (n: Option<u64>)
        ensures
            n == self@.content_length,
    {
        self.content_length
    }

    pub fn set_content_length(&mut self, n: u64)
        ensures
            final(self)@ == (ObjectMetadataView { content_length: Some(n), ..old(self)@ }),
    {
        self.content_length = Some(n);
    }

    /// The entity tag, if known, as the service gave it.
    pub fn etag(&self) -> (t: Option<&str>)
        ensures
            t is Some == self@.etag is Some,
            t is Some ==> t->Some_0@ == self@.etag->Some_0,
    {
        match &self.etag {
            Some(s) => Some(s.as_str()),
            None => None,
        }
    }

    pub fn set_etag(&mut self, etag: &str)
        ensures
            final(self)@ == (ObjectMetadataView { etag: Some(etag@), ..old(self)@ }),
    {
        self.etag = Some(etag.to_owned());
    }

    /// The MD5 digest of the content, if known.
    pub fn content_md5(&self) -> (t: Option<&str>)
        ensures
            t is Some == self@.content_md5 is Some,
            t is Some ==> t->Some_0@ == self@.content_md5->Some_0,
    {
        match &self.content_md5 {
            Some(s) => Some(s.as_str()),
            None => None,
        }
    }

    pub fn set_content_md5(&mut self, md5: &str)
        ensures
            final(self)@ == (ObjectMetadataView { content_md5: Some(md5@), ..old(self)@ }),
    {
        self.content_md5 = Some(md5.to_owned());
    }

    /// When the object was last modified, if known, in seconds since the
    /// start of 1970, UTC.
    pub fn last_modified(&self) -> (t: Option<i64>)
        ensures
            t == self@.last_modified,
    {
        self.last_modified
    }

    pub fn set_last_modified(&mut self, when: i64)
        ensures
            final(self)@ == (ObjectMetadataView { last_modified: Some(when), ..old(self)@ }),
    {
        self.last_modified = Some(when);
    }
}

} // verus!
