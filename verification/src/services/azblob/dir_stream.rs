//! The pages of a listing.

use vstd::prelude::*;

use crate::error::Error;
use crate::error::Operation;
use crate::services::azblob::backend::plain_parts;
use crate::http_util::request::HttpRequest;
use crate::http_util::request::Method;
use crate::services::azblob::backend::is_request;
use crate::services::azblob::backend::list_url;
use crate::services::azblob::backend::requested;
use crate::services::azblob::backend::Backend;
use crate::services::azblob::backend::BackendView;

verus! {

/// What a [`DirStream`] is, as plain values.
pub struct DirStreamView {
    pub backend: BackendView,
    /// The absolute path whose entries are listed.
    pub path: Seq<char>,
    /// Where the next page starts; empty before the first page.
    pub next_marker: Seq<char>,
    /// Whether the listing has ended: no page is asked for any more.
    pub done: bool,
}

/// The entries under a path, page by page.
///
/// Each page is one request. The service answers a page with the marker at
/// which the next one starts; an empty marker ends the listing, and so does
/// an error. A stream cannot be started again.
#[derive(Debug)]
pub struct DirStream {
    backend: Backend,
    path: String,
    next_marker: String,
    done: bool,
}

impl View for DirStream {
    type V = DirStreamView;

    closed spec fn view(&self) -> DirStreamView {
        DirStreamView {
            backend: self.backend@,
            path: self.path@,
            next_marker: self.next_marker@,
            done: self.done,
        }
    }
}

impl DirStream {
    /// The stream of the entries under the absolute path `path`, before its
    /// first page.
    pub fn new(backend: Backend, path: &str) -> (s: Self)
        ensures
            s@ == (DirStreamView {
                backend: backend@,
                path: path@,
                next_marker: Seq::empty(),
                done: false,
            }),
    {
        DirStream { backend, path: path.to_owned(), next_marker: String::new(), done: false }
    }

    /// The absolute path whose entries are listed.
    pub fn path(&self) -> (p: &str)
        ensures
            p@ == self@.path,
    {
        self.path.as_str()
    }

    /// Whether the listing has ended.
    pub fn is_done(&self) -> (d: bool)
        ensures
            d == self@.done,
    {
        self.done
    }

    /// The request for the next page, or `None` when the listing has ended.
    pub fn next_request(&self) -> (r: Option<Result<HttpRequest, Error>>)
        ensures
            r is None == self@.done,
            r is Some ==> is_request(
                r->Some_0,
                requested(
                    Operation::List,
                    self@.path,
                    plain_parts(
                        Method::Get,
                        list_url(self@.backend, self@.path, self@.next_marker),
                    ),
                ),
            ),
    {
        if self.done {
            None
        } else {
            Some(self.backend.list_blobs(self.path.as_str(), self.next_marker.as_str()))
        }
    }

    /// Takes in the marker with which the service answered a page. An empty
    /// marker ends the listing.
    pub fn on_page(&mut self, next_marker: &str)
        ensures
            final(self)@ == (DirStreamView {
                next_marker: next_marker@,
                done: old(self)@.done || next_marker@.len() == 0,
                ..old(self)@
            }),
    {
        self.next_marker = next_marker.to_owned();
        if next_marker.is_empty() {
            self.done = true;
        }
    }

    /// Takes in that a page failed: the listing ends with that error.
    pub fn on_error(&mut self)
        ensures
            final(self)@ == (DirStreamView { done: true, ..old(self)@ }),
    {
        self.done = true;
    }
}

} // verus!
