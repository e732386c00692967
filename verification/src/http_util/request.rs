//! An HTTP request as plain values, checked with the `http` crate.

use vstd::prelude::*;

verus! {

/// The request methods that a backend uses.
#[derive(Clone, Copy, Debug, PartialEq, Eq, Structural)]
pub enum Method {
    Get,
    Put,
    Head,
    Delete,
}

impl Method {
    /// The method as it is written in a request.
    pub open spec fn spec_name(self) -> Seq<char> {
        match self {
            Method::Get => "GET"@,
            Method::Put => "PUT"@,
            Method::Head => "HEAD"@,
            Method::Delete => "DELETE"@,
        }
    }

    /// The method as it is written in a request.
    pub fn name(self) -> (s: &'static str)
        ensures
            s@ == self.spec_name(),
    {
        match self {
            Method::Get => "GET",
            Method::Put => "PUT",
            Method::Head => "HEAD",
            Method::Delete => "DELETE",
        }
    }
}

/// What a request carries as its body.
#[derive(Clone, Copy, Debug, PartialEq, Eq, Structural)]
pub enum AsyncBody {
    /// No body.
    Empty,
    /// The bytes of the reader that came with the operation, sent in chunks.
    /// The reader is read once, in order.
    Reader,
}

/// What an [`HttpRequest`] is, as plain values.
pub struct HttpRequestView {
    pub method: Method,
    pub url: Seq<char>,
    /// The headers, name and value, in the order in which they were set.
    pub headers: Seq<(Seq<char>, Seq<char>)>,
    pub body: AsyncBody,
}

/// Headers by their characters.
pub open spec fn headers_view(headers: Seq<(String, String)>) -> Seq<(Seq<char>, Seq<char>)> {
    headers.map_values(|h: (String, String)| (h.0@, h.1@))
}

/// Why the `http` crate refuses to build a request with this method, URL and
/// headers, in its own words; `None` where it builds one.
pub uninterp spec fn http_rejection(
    method: Seq<char>,
    url: Seq<char>,
    headers: Seq<(Seq<char>, Seq<char>)>,
) -> Option<Seq<char>>;

/// Asks the `http` crate whether it builds a request from these parts.
///
/// Calls `http::Request::builder`, `method`, `uri`, `header` for each header
/// in order, and `body`. The builder parses the method, the URL and each
/// header; the contract gives its verdict a name, and claims that the answer
/// is the text of the error with which `body` fails, or `None` where it
/// succeeds. The verdict depends on the arguments alone.
#[verifier::external_body]
fn check_with_http(method: &str, url: &str, headers: &Vec<(String, String)>) -> (r: Option<String>)
    ensures
        r is Some == http_rejection(method@, url@, headers_view(headers@)) is Some,
        r is Some ==> r->Some_0@ == http_rejection(method@, url@, headers_view(headers@))->Some_0,
{
    let mut builder = http::Request::builder().method(method).uri(url);
    for (name, value) in headers.iter() {
        builder = builder.header(name.as_str(), value.as_str());
    }
    match builder.body(()) {
        Ok(_) => None,
        Err(e) => Some(e.to_string()),
    }
}

/// A request that is ready to be signed and sent.
#[derive(Clone, Debug, PartialEq, Eq)]
pub struct HttpRequest {
    method: Method,
    url: String,
    headers: Vec<(String, String)>,
    body: AsyncBody,
}

impl View for HttpRequest {
    type V = HttpRequestView;

    closed spec fn view(&self) -> HttpRequestView {
        HttpRequestView {
            method: self.method,
            url: self.url@,
            headers: headers_view(self.headers@),
            body: self.body,
        }
    }
}

/// What building a request from these parts gives when the `http` crate
/// answers `rejection`.
pub open spec fn built_with(parts: HttpRequestView, rejection: Option<Seq<char>>) -> Result<
    HttpRequestView,
    Seq<char>,
> {
    match rejection {
        Some(reason) => Err(reason),
        None => Ok(parts),
    }
}

/// What building a request from these parts gives: the request, or the text
/// with which the `http` crate refuses it.
pub open spec fn built(parts: HttpRequestView) -> Result<HttpRequestView, Seq<char>> {
    built_with(parts, http_rejection(parts.method.spec_name(), parts.url, parts.headers))
}

impl HttpRequest {
    /// The request of these parts, given what the `http` crate said of them:
    /// `None`, or why it refuses them.
    pub fn checked(
        method: Method,
        url: String,
        headers: Vec<(String, String)>,
        body: AsyncBody,
        rejection: Option<String>,
    ) -> (r: Result<HttpRequest, String>)
        ensures
            match rejection {
                Some(reason) => r is Err && r->Err_0@ == reason@,
                None => r is Ok && r->Ok_0@ == (HttpRequestView {
                    method,
                    url: url@,
                    headers: headers_view(headers@),
                    body,
                }),
            },
    {
        match rejection {
            Some(reason) => Err(reason),
            None => Ok(HttpRequest { method, url, headers, body }),
        }
    }

    /// Builds a request, or says why the `http` crate refuses it: a URL that
    /// is no URI, or a header that is no header.
    pub fn build(
        method: Method,
        url: String,
        headers: Vec<(String, String)>,
        body: AsyncBody,
    ) -> (r: Result<HttpRequest, String>)
        ensures
            match built(
                HttpRequestView { method, url: url@, headers: headers_view(headers@), body },
            ) {
                Ok(v) => r is Ok && r->Ok_0@ == v,
                Err(reason) => r is Err && r->Err_0@ == reason,
            },
    {
        let rejection = check_with_http(method.name(), url.as_str(), &headers);
        HttpRequest::checked(method, url, headers, body, rejection)
    }

    pub fn method(&self) -> (m: Method)
        ensures
            m == self@.method,
    {
        self.method
    }

    pub fn url(&self) -> (u: &str)
        ensures
            u@ == self@.url,
    {
        self.url.as_str()
    }

    /// The headers, name and value, in the order in which they were set.
    pub fn headers(&self) -> (h: &Vec<(String, String)>)
        ensures
            headers_view(h@) == self@.headers,
    {
        &self.headers
    }

    pub fn body(&self) -> (b: AsyncBody)
        ensures
            b == self@.body,
    {
        self.body
    }
}

} // verus!
