//! The backend of one container: its configuration, the requests it makes
//! of each operation, and what each response means.
//!
//! The backend builds requests and reads responses; it neither signs nor
//! sends. Whoever does hands each request to the signer and the HTTP client,
//! and the status and headers of the response back to the backend.

use vstd::prelude::*;

use crate::accessor::AccessorCapability;
use crate::accessor::AccessorMetadata;
use crate::accessor::AccessorMetadataView;
use crate::accessor::Capabilities;
use crate::accessor::Scheme;
use crate::error::config_error;
use crate::error::object_error;
use crate::error::Error;
use crate::error::ErrorKind;
use crate::error::ErrorView;
use crate::error::Operation;
use crate::http_util::encode::encoded_path;
use crate::http_util::encode::push_encoded_path;
use crate::http_util::error::new_request_build_error;
use crate::http_util::error::parse_error;
use crate::http_util::error::service_error;
use crate::http_util::error::step_error;
use crate::http_util::header::content_length_of;
use crate::http_util::header::header_value;
use crate::http_util::header::last_modified_of;
use crate::http_util::header::parse_content_length;
use crate::http_util::header::parse_etag;
use crate::http_util::header::parse_last_modified;
use crate::http_util::number::decimal;
use crate::http_util::number::push_decimal;
use crate::http_util::request::built;
use crate::http_util::request::headers_view;
use crate::http_util::request::AsyncBody;
use crate::http_util::request::HttpRequest;
use crate::http_util::request::HttpRequestView;
use crate::http_util::request::Method;
use crate::object::bare;
use crate::object::text_view;
use crate::object::ObjectMetadata;
use crate::object::ObjectMetadataView;
use crate::object::ObjectMode;
use crate::ops::OpCreate;
use crate::ops::OpDelete;
use crate::ops::OpList;
use crate::ops::OpRead;
use crate::ops::OpStat;
use crate::ops::OpWrite;
use crate::path::abs_path;
use crate::path::build_abs_path;
use crate::path::lemma_abs_path_keeps_directory;
use crate::path::is_root;
use crate::path::normalize_root;
use crate::path::normalized_root;
use crate::services::azblob::dir_stream::DirStream;
use crate::services::azblob::dir_stream::DirStreamView;
use crate::text::ends_with;
use crate::text::str_ends_with;
use crate::text::str_eq;
use crate::text::trim;
use crate::text::trim_end;
use crate::text::trim_end_matches;
use crate::text::trim_matches;

verus! {

/// What a [`Builder`] holds, as plain values.
pub struct BuilderView {
    pub root: Option<Seq<char>>,
    pub container: Seq<char>,
    pub endpoint: Option<Seq<char>>,
    pub account_name: Option<Seq<char>>,
    pub account_key: Option<Seq<char>>,
}

/// The builder on which nothing has been set.
pub open spec fn blank() -> BuilderView {
    BuilderView {
        root: None,
        container: Seq::empty(),
        endpoint: None,
        account_name: None,
        account_key: None,
    }
}

/// Builder for azblob services
#[derive(Clone)]
pub struct Builder {
    root: Option<String>,
    container: String,
    endpoint: Option<String>,
    account_name: Option<String>,
    account_key: Option<String>,
}

impl View for Builder {
    type V = BuilderView;

    closed spec fn view(&self) -> BuilderView {
        BuilderView {
            root: text_view(self.root),
            container: self.container@,
            endpoint: text_view(self.endpoint),
            account_name: text_view(self.account_name),
            account_key: text_view(self.account_key),
        }
    }
}

impl Default for Builder {
    fn default() -> (b: Self)
        ensures
            b@ == blank(),
    {
        Builder {
            root: None,
            container: String::new(),
            endpoint: None,
            account_name: None,
            account_key: None,
        }
    }
}

/// An optional setting after `value` was offered for it: an empty value
/// changes nothing.
pub open spec fn offered(current: Option<Seq<char>>, value: Seq<char>) -> Option<Seq<char>> {
    if value.len() == 0 {
        current
    } else {
        Some(value)
    }
}

impl Builder {
    /// Set root of this backend.
    ///
    /// All operations will happen under this root. An empty root changes
    /// nothing.
    pub fn root(&mut self, root: &str) -> (r: &mut Self)
        ensures
            r@ == (BuilderView { root: offered(old(self)@.root, root@), ..old(self)@ }),
            *final(self) == *final(r),
    {
        if !root.is_empty() {
            self.root = Some(root.to_owned());
        }
        self
    }

    /// Set container name of this backend.
    pub fn container(&mut self, container: &str) -> (r: &mut Self)
        ensures
            r@ == (BuilderView { container: container@, ..old(self)@ }),
            *final(self) == *final(r),
    {
        self.container = container.to_owned();
        self
    }

    /// Set endpoint of this backend.
    ///
    /// Endpoint must be full uri, e.g.
    ///
    /// - Azblob: `https://accountname.blob.core.windows.net`
    /// - Azurite: `http://127.0.0.1:10000/devstoreaccount1`
    ///
    /// Every `/` at its end is cut off. An empty endpoint changes nothing.
    pub fn endpoint(&mut self, endpoint: &str) -> (r: &mut Self)
        ensures
            r@ == (BuilderView {
                endpoint: if endpoint@.len() == 0 {
                    old(self)@.endpoint
                } else {
                    Some(trim_end(endpoint@, '/'))
                },
                ..old(self)@
            }),
            *final(self) == *final(r),
    {
        if !endpoint.is_empty() {
            self.endpoint = Some(trim_end_matches(endpoint, '/'));
        }
        self
    }

    /// Set account_name of this backend.
    ///
    /// - If account_name is set, we will take user's input first.
    /// - If not, we will try to load it from environment.
    pub fn account_name(&mut self, account_name: &str) -> (r: &mut Self)
        ensures
            r@ == (BuilderView {
                account_name: offered(old(self)@.account_name, account_name@),
                ..old(self)@
            }),
            *final(self) == *final(r),
    {
        if !account_name.is_empty() {
            self.account_name = Some(account_name.to_owned());
        }
        self
    }

    /// Set account_key of this backend.
    ///
    /// - If account_key is set, we will take user's input first.
    /// - If not, we will try to load it from environment.
    pub fn account_key(&mut self, account_key: &str) -> (r: &mut Self)
        ensures
            r@ == (BuilderView {
                account_key: offered(old(self)@.account_key, account_key@),
                ..old(self)@
            }),
            *final(self) == *final(r),
    {
        if !account_key.is_empty() {
            self.account_key = Some(account_key.to_owned());
        }
        self
    }
}

/// What a [`Backend`] holds, as plain values.
pub struct BackendView {
    pub container: Seq<char>,
    /// The root: `/`, or segments between `/`, such as `/abc/`.
    pub root: Seq<char>,
    /// The endpoint, with no `/` at its end.
    pub endpoint: Seq<char>,
    pub account_name: Seq<char>,
}

/// The text of an optional setting; nothing where it is not set.
pub open spec fn or_empty(t: Option<Seq<char>>) -> Seq<char> {
    match t {
        Some(s) => s,
        None => Seq::empty(),
    }
}

/// What building gives: the backend, or the error that names the setting
/// that is missing. The container is looked at first, then the endpoint.
pub open spec fn built_backend(b: BuilderView) -> Result<BackendView, ErrorView> {
    if b.container.len() == 0 {
        Err(config_error("container"@, "container is empty"@))
    } else {
        match b.endpoint {
            None => Err(config_error("endpoint"@, "endpoint is empty"@)),
            Some(endpoint) => Ok(
                BackendView {
                    container: b.container,
                    root: normalized_root(or_empty(b.root)),
                    endpoint,
                    account_name: or_empty(b.account_name),
                },
            ),
        }
    }
}

/// The builder after building: the root is taken out of it, and so is the
/// account name where the backend was built.
pub open spec fn after_build(b: BuilderView) -> BuilderView {
    BuilderView {
        root: None,
        account_name: if built_backend(b) is Ok {
            None
        } else {
            b.account_name
        },
        ..b
    }
}

/// The credentials that the signer is given: account name and key where
/// both are set. Otherwise the signer looks for them in its environment.
pub open spec fn credentials_of(b: BuilderView) -> Option<(Seq<char>, Seq<char>)> {
    match (b.account_name, b.account_key) {
        (Some(name), Some(key)) => Some((name, key)),
        _ => None,
    }
}

/// How a builder describes itself. The credentials are not in it: where one
/// is set, `<redacted>` stands for it.
pub open spec fn described(b: BuilderView) -> Seq<char> {
    "Builder { root: "@ + described_setting(b.root) + ", container: \""@ + b.container
        + "\", endpoint: "@ + described_setting(b.endpoint) + described_secret(
        ", account_name: "@,
        b.account_name is Some,
    ) + described_secret(", account_key: "@, b.account_key is Some) + " }"@
}

/// An optional setting in a description.
pub open spec fn described_setting(t: Option<Seq<char>>) -> Seq<char> {
    match t {
        Some(s) => "Some(\""@ + s + "\")"@,
        None => "None"@,
    }
}

/// A credential in a description: only whether it is set.
pub open spec fn described_secret(label: Seq<char>, is_set: bool) -> Seq<char> {
    if is_set {
        label + "\"<redacted>\""@
    } else {
        Seq::empty()
    }
}

fn describe_setting(s: String, t: &Option<String>) -> (r: String)
    ensures
        r@ == s@ + described_setting(text_view(*t)),
{
    match t {
        Some(v) => {
            let r = s.concat("Some(\"").concat(v.as_str()).concat("\")");
            assert(r@ =~= s@ + ("Some(\""@ + v@ + "\")"@));
            r
        },
        None => s.concat("None"),
    }
}

fn describe_secret(s: String, label: &str, is_set: bool) -> (r: String)
    ensures
        r@ == s@ + described_secret(label@, is_set),
{
    if is_set {
        let r = s.concat(label).concat("\"<redacted>\"");
        assert(r@ =~= s@ + (label@ + "\"<redacted>\""@));
        r
    } else {
        assert(s@ + Seq::<char>::empty() =~= s@);
        s
    }
}

impl Builder {
    /// The builder as text, for logs. Credentials are redacted.
    pub fn describe(&self) -> (s: String)
        ensures
            s@ == described(self@),
    {
        let s = "Builder { root: ".to_owned();
        let s = describe_setting(s, &self.root);
        let s = s.concat(", container: \"").concat(self.container.as_str()).concat(
            "\", endpoint: ",
        );
        let s = describe_setting(s, &self.endpoint);
        let s = describe_secret(s, ", account_name: ", self.account_name.is_some());
        let s = describe_secret(s, ", account_key: ", self.account_key.is_some());
        s.concat(" }")
    }

    /// The credentials to hand to the signer, if both are set.
    pub fn credentials(&self) -> (c: Option<(String, String)>)
        ensures
            match credentials_of(self@) {
                Some((name, key)) => c is Some && c->Some_0.0@ == name && c->Some_0.1@ == key,
                None => c is None,
            },
    {
        match (&self.account_name, &self.account_key) {
            (Some(name), Some(key)) => Some((name.clone(), key.clone())),
            _ => None,
        }
    }

    /// Consume builder to build an azblob backend.
    ///
    /// The container and the endpoint must be set. The root defaults to `/`.
    pub fn build(&mut self) -> (r: Result<Backend, Error>)
        ensures
            match built_backend(old(self)@) {
                Ok(v) => r is Ok && r->Ok_0@ == v,
                Err(e) => r is Err && r->Err_0@ == e,
            },
            final(self)@ == after_build(old(self)@),
    {
        let root = match &self.root {
            Some(r) => normalize_root(r.as_str()),
            None => {
                let empty = String::new();
                normalize_root(empty.as_str())
            },
        };
        self.root = None;
        if self.container.as_str().is_empty() {
            return Err(Error::config("container", "container is empty"));
        }
        let endpoint = match &self.endpoint {
            Some(endpoint) => endpoint.clone(),
            None => {
                return Err(Error::config("endpoint", "endpoint is empty"));
            },
        };
        let account_name = match &self.account_name {
            Some(name) => name.clone(),
            None => String::new(),
        };
        self.account_name = None;
        Ok(Backend { root, endpoint, container: self.container.clone(), account_name })
    }
}

/// Backend for azblob services.
#[derive(Debug)]
pub struct Backend {
    container: String,
    root: String,
    endpoint: String,
    account_name: String,
}

impl View for Backend {
    type V = BackendView;

    closed spec fn view(&self) -> BackendView {
        BackendView {
            container: self.container@,
            root: self.root@,
            endpoint: self.endpoint@,
            account_name: self.account_name@,
        }
    }
}

impl Clone for Backend {
    fn clone(&self) -> (b: Self)
        ensures
            b@ == self@,
    {
        proof {
            use_type_invariant(self);
        }
        Backend {
            container: self.container.clone(),
            root: self.root.clone(),
            endpoint: self.endpoint.clone(),
            account_name: self.account_name.clone(),
        }
    }
}

/// The builder after the setting `key` was given the value `value`. A key
/// that is no setting changes nothing.
pub open spec fn with_setting(b: BuilderView, key: Seq<char>, value: Seq<char>) -> BuilderView {
    if key == "root"@ {
        BuilderView { root: offered(b.root, value), ..b }
    } else if key == "container"@ {
        BuilderView { container: value, ..b }
    } else if key == "endpoint"@ {
        BuilderView {
            endpoint: if value.len() == 0 {
                b.endpoint
            } else {
                Some(trim_end(value, '/'))
            },
            ..b
        }
    } else if key == "account_name"@ {
        BuilderView { account_name: offered(b.account_name, value), ..b }
    } else if key == "account_key"@ {
        BuilderView { account_key: offered(b.account_key, value), ..b }
    } else {
        b
    }
}

/// The builder after each of `settings` was given, in order.
pub open spec fn with_settings(b: BuilderView, settings: Seq<(Seq<char>, Seq<char>)>)
    -> BuilderView
    decreases settings.len(),
{
    if settings.len() == 0 {
        b
    } else {
        with_setting(
            with_settings(b, settings.drop_last()),
            settings.last().0,
            settings.last().1,
        )
    }
}

impl Backend {
    /// A backend holds a root that starts and ends with `/`.
    #[verifier::type_invariant]
    closed spec fn rooted(self) -> bool {
        is_root(self.root@)
    }

    /// Builds a backend from settings given as pairs of key and value, in
    /// order: `root`, `container`, `endpoint`, `account_name`,
    /// `account_key`. Other keys are ignored.
    pub fn from_iter(it: Vec<(String, String)>) -> (r: Result<Self, Error>)
        ensures
            match built_backend(with_settings(blank(), headers_view(it@))) {
                Ok(v) => r is Ok && r->Ok_0@ == v,
                Err(e) => r is Err && r->Err_0@ == e,
            },
    {
        let mut builder = Builder::default();
        let ghost settings = headers_view(it@);
        let mut i: usize = 0;
        assert(settings.take(0) =~= Seq::empty());
        proof {
            reveal_strlit("root");
            reveal_strlit("container");
            reveal_strlit("endpoint");
            reveal_strlit("account_name");
            reveal_strlit("account_key");
        }
        while i < it.len()
            invariant
                i <= it.len(),
                settings == headers_view(it@),
                builder@ == with_settings(blank(), settings.take(i as int)),
            decreases it.len() - i,
        {
            let k = it[i].0.as_str();
            let v = it[i].1.as_str();
            proof {
                assert(settings.take(i + 1).drop_last() =~= settings.take(i as int));
                assert(settings.take(i + 1).last() == (k@, v@));
            }
            if str_eq(k, "root") {
                builder.root(v);
            } else if str_eq(k, "container") {
                builder.container(v);
            } else if str_eq(k, "endpoint") {
                builder.endpoint(v);
            } else if str_eq(k, "account_name") {
                builder.account_name(v);
            } else if str_eq(k, "account_key") {
                builder.account_key(v);
            }
            i = i + 1;
        }
        assert(settings.take(it.len() as int) =~= settings);
        builder.build()
    }

    pub fn container(&self) -> (s: &str)
        ensures
            s@ == self@.container,
    {
        self.container.as_str()
    }

    /// The root under which every operation happens. It starts and ends
    /// with `/`.
    pub fn root(&self) -> (s: &str)
        ensures
            s@ == self@.root,
            is_root(s@),
    {
        proof {
            use_type_invariant(self);
        }
        self.root.as_str()
    }

    pub fn endpoint(&self) -> (s: &str)
        ensures
            s@ == self@.endpoint,
    {
        self.endpoint.as_str()
    }

    /// The account name that the backend was built with; empty if none was
    /// set.
    pub fn account_name(&self) -> (s: &str)
        ensures
            s@ == self@.account_name,
    {
        self.account_name.as_str()
    }

    /// What the backend says of itself: it reads, writes and lists.
    pub fn metadata(&self) -> (m: AccessorMetadata)
        ensures
            m@ == (AccessorMetadataView {
                scheme: Scheme::Azblob,
                root: self@.root,
                name: self@.container,
                capabilities: set![
                    AccessorCapability::Read,
                    AccessorCapability::Write,
                    AccessorCapability::List,
                ],
            }),
    {
        let caps = Capabilities::empty().with(AccessorCapability::Read).with(
            AccessorCapability::Write,
        ).with(AccessorCapability::List);
        assert(caps@ =~= set![
            AccessorCapability::Read,
            AccessorCapability::Write,
            AccessorCapability::List,
        ]);
        AccessorMetadata::new(
            Scheme::Azblob,
            self.root.as_str(),
            self.container.as_str(),
            caps,
        )
    }
}

/// The URL of the blob at the absolute path `path`.
pub open spec fn blob_url(b: BackendView, path: Seq<char>) -> Seq<char> {
    b.endpoint + "/"@ + b.container + "/"@ + encoded_path(path)
}

/// A query parameter, which is left out where `given` is empty.
pub open spec fn optional_query(label: Seq<char>, given: Seq<char>, value: Seq<char>) -> Seq<
    char,
> {
    if given.len() > 0 {
        label + value
    } else {
        Seq::empty()
    }
}

/// The URL that lists the blobs of the container under the prefix `path`,
/// from the continuation marker `marker` on. The marker is written as the
/// service gave it.
pub open spec fn list_url(b: BackendView, path: Seq<char>, marker: Seq<char>) -> Seq<char> {
    b.endpoint + "/"@ + b.container + "?restype=container&comp=list&delimiter=/"@
        + optional_query("&prefix="@, path, encoded_path(path)) + optional_query(
        "&marker="@,
        marker,
        marker,
    )
}

/// Whether a range is no bytes from the very start: the one range whose
/// last byte, `offset + size - 1`, is no number at all.
pub open spec fn is_empty_range(offset: Option<u64>, size: Option<u64>) -> bool {
    offset == Some(0u64) && size == Some(0u64)
}

/// The value of the `range` header for `size` bytes from `offset` on: the
/// first byte and the last, `offset + size - 1`, both counted from zero;
/// from `offset` to the end without a size; the last `size` bytes without an
/// offset; no header without both.
///
/// No bytes from a later offset are written as the formula has them, with a
/// last byte just before the first; what the service makes of that is its
/// own matter.
pub open spec fn range_of(offset: Option<u64>, size: Option<u64>) -> Option<Seq<char>>
    recommends
        !is_empty_range(offset, size),
{
    match (offset, size) {
        (None, None) => None,
        (Some(o), None) => Some("bytes="@ + decimal(o as nat) + "-"@),
        (None, Some(n)) => Some("bytes=-"@ + decimal(n as nat)),
        (Some(o), Some(n)) => Some(
            "bytes="@ + decimal(o as nat) + "-"@ + decimal((o + n - 1) as nat),
        ),
    }
}

/// The headers that hold `value` under `name`, if there is a value.
pub open spec fn optional_header(name: Seq<char>, value: Option<Seq<char>>) -> Seq<
    (Seq<char>, Seq<char>),
> {
    match value {
        Some(v) => seq![(name, v)],
        None => Seq::empty(),
    }
}

/// The request that gets a blob, or a range of it.
pub open spec fn get_blob_parts(
    b: BackendView,
    path: Seq<char>,
    offset: Option<u64>,
    size: Option<u64>,
) -> HttpRequestView {
    HttpRequestView {
        method: Method::Get,
        url: blob_url(b, path),
        headers: optional_header("range"@, range_of(offset, size)),
        body: AsyncBody::Empty,
    }
}

/// A length as a header value.
pub open spec fn length_text(size: Option<u64>) -> Option<Seq<char>> {
    match size {
        Some(n) => Some(decimal(n as nat)),
        None => None,
    }
}

/// The request that puts a block blob.
pub open spec fn put_blob_parts(b: BackendView, path: Seq<char>, size: Option<u64>, body: AsyncBody)
    -> HttpRequestView {
    HttpRequestView {
        method: Method::Put,
        url: blob_url(b, path),
        headers: optional_header("content-length"@, length_text(size)).push(
            ("x-ms-blob-type"@, "BlockBlob"@),
        ),
        body,
    }
}

/// The request with no header and no body that `method` makes of `url`.
pub open spec fn plain_parts(method: Method, url: Seq<char>) -> HttpRequestView {
    HttpRequestView { method, url, headers: Seq::empty(), body: AsyncBody::Empty }
}

/// What asking for a request gives: the request, or the build error of `op`
/// on `path` where the `http` crate refuses its parts.
pub open spec fn requested(op: Operation, path: Seq<char>, parts: HttpRequestView) -> Result<
    HttpRequestView,
    ErrorView,
> {
    match built(parts) {
        Ok(v) => Ok(v),
        Err(reason) => Err(step_error(ErrorKind::Other, op, path, "build request"@, reason)),
    }
}

/// What getting a blob asks for. Every request is built but one: no bytes
/// from offset zero, for which the header has no last byte to name. That
/// refusal is this library's own rule.
pub open spec fn get_blob_request(
    b: BackendView,
    path: Seq<char>,
    offset: Option<u64>,
    size: Option<u64>,
) -> Result<HttpRequestView, ErrorView> {
    if is_empty_range(offset, size) {
        Err(object_error(ErrorKind::InvalidInput, Operation::Read, path, "range is empty"@))
    } else {
        requested(Operation::Read, path, get_blob_parts(b, path, offset, size))
    }
}

/// Whether `r` is the result that `expected` describes.
pub open spec fn is_request(r: Result<HttpRequest, Error>, expected: Result<
    HttpRequestView,
    ErrorView,
>) -> bool {
    match expected {
        Ok(v) => r is Ok && r->Ok_0@ == v,
        Err(e) => r is Err && r->Err_0@ == e,
    }
}

/// The request that was built, or the build error of `op` on `path`.
pub fn request_from(op: Operation, path: &str, built: Result<HttpRequest, String>) -> (r: Result<
    HttpRequest,
    Error,
>)
    ensures
        match built {
            Ok(req) => r is Ok && r->Ok_0@ == req@,
            Err(reason) => r is Err && r->Err_0@ == step_error(
                ErrorKind::Other,
                op,
                path@,
                "build request"@,
                reason@,
            ),
        },
{
    match built {
        Ok(req) => Ok(req),
        Err(reason) => Err(new_request_build_error(op, path, reason.as_str())),
    }
}

fn range_header(offset: Option<u64>, size: Option<u64>) -> (r: Option<String>)
    requires
        !is_empty_range(offset, size),
    ensures
        r is Some == range_of(offset, size) is Some,
        r is Some ==> r->Some_0@ == range_of(offset, size)->Some_0,
{
    match (offset, size) {
        (None, None) => None,
        (Some(o), None) => {
            let mut s = "bytes=".to_owned();
            push_decimal(&mut s, o as u128);
            Some(s.concat("-"))
        },
        (None, Some(n)) => {
            let mut s = "bytes=-".to_owned();
            push_decimal(&mut s, n as u128);
            Some(s)
        },
        (Some(o), Some(n)) => {
            let mut s = "bytes=".to_owned();
            push_decimal(&mut s, o as u128);
            let mut s = s.concat("-");
            let last: u128 = (o as u128) + (n as u128) - 1;
            push_decimal(&mut s, last);
            Some(s)
        },
    }
}

impl Backend {
    fn blob_url(&self, path: &str) -> (url: String)
        ensures
            url@ == blob_url(self@, path@),
    {
        let mut url = self.endpoint.clone().concat("/").concat(self.container.as_str()).concat(
            "/",
        );
        push_encoded_path(&mut url, path);
        url
    }

    /// The request that gets the blob at the absolute path `path`, or
    /// `size` bytes of it from `offset` on.
    ///
    /// No bytes from offset zero are refused as invalid input: the `range`
    /// header has no way to write that range. This is this library's own
    /// rule, made so that no request is sent with a header that says
    /// something else.
    pub fn get_blob(&self, path: &str, offset: Option<u64>, size: Option<u64>) -> (r: Result<
        HttpRequest,
        Error,
    >)
        ensures
            is_request(r, get_blob_request(self@, path@, offset, size)),
    {
        if offset == Some(0) && size == Some(0) {
            return Err(
                Error::new(ErrorKind::InvalidInput, Operation::Read, path, "range is empty"),
            );
        }
        let url = self.blob_url(path);
        let mut headers: Vec<(String, String)> = Vec::new();
        assert(headers_view(headers@) =~= Seq::empty());
        match range_header(offset, size) {
            Some(range) => {
                headers.push(("range".to_owned(), range));
                assert(headers_view(headers@) =~= seq![("range"@, range@)]);
            },
            None => {},
        }
        request_from(
            Operation::Read,
            path,
            HttpRequest::build(Method::Get, url, headers, AsyncBody::Empty),
        )
    }

    /// The request that puts `size` bytes, taken from `body`, as the block
    /// blob at the absolute path `path`.
    pub fn put_blob_request(&self, path: &str, size: Option<u64>, body: AsyncBody) -> (r: Result<
        HttpRequest,
        Error,
    >)
        ensures
            is_request(
                r,
                requested(Operation::Write, path@, put_blob_parts(self@, path@, size, body)),
            ),
    {
        self.put_blob(Operation::Write, path, size, body)
    }

    /// The request that puts a block blob, on behalf of `op`: an error of
    /// building it names that operation.
    fn put_blob(&self, op: Operation, path: &str, size: Option<u64>, body: AsyncBody) -> (r:
        Result<HttpRequest, Error>)
        ensures
            is_request(r, requested(op, path@, put_blob_parts(self@, path@, size, body))),
    {
        let url = self.blob_url(path);
        let mut headers: Vec<(String, String)> = Vec::new();
        assert(headers_view(headers@) =~= Seq::empty());
        match size {
            Some(n) => {
                let mut text = String::new();
                push_decimal(&mut text, n as u128);
                assert(text@ =~= decimal(n as nat));
                headers.push(("content-length".to_owned(), text));
                assert(headers_view(headers@) =~= seq![("content-length"@, decimal(n as nat))]);
            },
            None => {},
        }
        let ghost before = headers_view(headers@);
        headers.push(("x-ms-blob-type".to_owned(), "BlockBlob".to_owned()));
        assert(headers_view(headers@) =~= before.push(("x-ms-blob-type"@, "BlockBlob"@)));
        request_from(op, path, HttpRequest::build(Method::Put, url, headers, body))
    }

    /// The request that asks for the properties of the blob at the absolute
    /// path `path`.
    pub fn get_blob_properties(&self, path: &str) -> (r: Result<HttpRequest, Error>)
        ensures
            is_request(
                r,
                requested(
                    Operation::Stat,
                    path@,
                    plain_parts(Method::Head, blob_url(self@, path@)),
                ),
            ),
    {
        let url = self.blob_url(path);
        let headers: Vec<(String, String)> = Vec::new();
        assert(headers_view(headers@) =~= Seq::empty());
        request_from(
            Operation::Stat,
            path,
            HttpRequest::build(Method::Head, url, headers, AsyncBody::Empty),
        )
    }

    /// The request that deletes the blob at the absolute path `path`.
    pub fn delete_blob(&self, path: &str) -> (r: Result<HttpRequest, Error>)
        ensures
            is_request(
                r,
                requested(
                    Operation::Delete,
                    path@,
                    plain_parts(Method::Delete, blob_url(self@, path@)),
                ),
            ),
    {
        let url = self.blob_url(path);
        let headers: Vec<(String, String)> = Vec::new();
        assert(headers_view(headers@) =~= Seq::empty());
        request_from(
            Operation::Delete,
            path,
            HttpRequest::build(Method::Delete, url, headers, AsyncBody::Empty),
        )
    }

    /// The request that lists one page of the blobs under the absolute path
    /// `path`, from the continuation marker `next_marker` on; an empty marker
    /// asks for the first page.
    pub fn list_blobs(&self, path: &str, next_marker: &str) -> (r: Result<HttpRequest, Error>)
        ensures
            is_request(
                r,
                requested(
                    Operation::List,
                    path@,
                    plain_parts(Method::Get, list_url(self@, path@, next_marker@)),
                ),
            ),
    {
        let mut url = self.endpoint.clone().concat("/").concat(self.container.as_str()).concat(
            "?restype=container&comp=list&delimiter=/",
        );
        let ghost base = url@;
        if !path.is_empty() {
            url = url.concat("&prefix=");
            push_encoded_path(&mut url, path);
            assert(url@ =~= base + ("&prefix="@ + encoded_path(path@)));
        } else {
            assert(url@ =~= base + Seq::<char>::empty());
        }
        let ghost with_prefix = url@;
        if !next_marker.is_empty() {
            url = url.concat("&marker=").concat(next_marker);
            assert(url@ =~= with_prefix + ("&marker="@ + next_marker@));
        } else {
            assert(url@ =~= with_prefix + Seq::<char>::empty());
        }
        let headers: Vec<(String, String)> = Vec::new();
        assert(headers_view(headers@) =~= Seq::empty());
        request_from(
            Operation::List,
            path,
            HttpRequest::build(Method::Get, url, headers, AsyncBody::Empty),
        )
    }
}

/// A response in which the service refused the request. Its body says why.
#[derive(Debug)]
pub struct Rejection {
    op: Operation,
    path: String,
    status: u16,
}

impl View for Rejection {
    type V = (Operation, Seq<char>, u16);

    /// The operation, the path it was called with, and the status.
    closed spec fn view(&self) -> (Operation, Seq<char>, u16) {
        (self.op, self.path@, self.status)
    }
}

impl Rejection {
    pub fn status(&self) -> (status: u16)
        ensures
            status == self@.2,
    {
        self.status
    }

    /// The error of the refused operation, given what the body of the
    /// response says.
    pub fn into_error(self, text: &str) -> (e: Error)
        ensures
            e@ == service_error(self@.0, self@.1, self@.2, text@),
    {
        parse_error(self.op, self.path.as_str(), self.status, text)
    }
}

/// What a response means for the operation that asked.
#[derive(Debug)]
pub enum Reply<T> {
    /// The operation succeeded with this result.
    Done(T),
    /// The service answered with success, but its headers make no sense.
    Invalid(Error),
    /// The service refused: read the body and make the error of it.
    Rejected(Rejection),
}

/// A [`Reply`] as plain values.
pub enum ReplyView<V> {
    Done(V),
    Invalid(ErrorView),
    Rejected(Operation, Seq<char>, u16),
}

/// Whether `r` is the reply that `expected` describes.
pub open spec fn is_reply<T: View>(r: Reply<T>, expected: ReplyView<T::V>) -> bool {
    match expected {
        ReplyView::Done(v) => r matches Reply::Done(x) && x@ == v,
        ReplyView::Invalid(e) => r matches Reply::Invalid(x) && x@ == e,
        ReplyView::Rejected(op, path, status) => r matches Reply::Rejected(x) && x@ == (
            op,
            path,
            status,
        ),
    }
}

/// Whether `r` is the reply without a view that `expected` describes.
pub open spec fn is_plain_reply<T>(r: Reply<T>, expected: ReplyView<T>) -> bool {
    match expected {
        ReplyView::Done(v) => r matches Reply::Done(x) && x == v,
        ReplyView::Invalid(e) => r matches Reply::Invalid(x) && x@ == e,
        ReplyView::Rejected(op, path, status) => r matches Reply::Rejected(x) && x@ == (
            op,
            path,
            status,
        ),
    }
}

/// How `stat` goes on.
#[derive(Debug)]
pub enum StatPlan {
    /// The answer is known without asking the service.
    Known(ObjectMetadata),
    /// Send this request and hand the response to `stat_response`.
    Ask(HttpRequest),
}

/// What a response to creating or writing means: 201 and 200 are success.
pub open spec fn put_reply<V>(op: Operation, path: Seq<char>, status: u16, done: V) -> ReplyView<
    V,
> {
    if status == 201 || status == 200 {
        ReplyView::Done(done)
    } else {
        ReplyView::Rejected(op, path, status)
    }
}

/// What a response to reading means: 200 and 206 are success, and the body
/// holds the bytes.
pub open spec fn read_reply(path: Seq<char>, status: u16) -> ReplyView<()> {
    if status == 200 || status == 206 {
        ReplyView::Done(())
    } else {
        ReplyView::Rejected(Operation::Read, path, status)
    }
}

/// What a response to asking for a page of a listing means: 200 is success,
/// and the body holds the page.
pub open spec fn list_reply(path: Seq<char>, status: u16) -> ReplyView<()> {
    if status == 200 {
        ReplyView::Done(())
    } else {
        ReplyView::Rejected(Operation::List, path, status)
    }
}

/// What a response to deleting means: 202 is success, and so is 404, since
/// what was to be deleted is not there.
pub open spec fn delete_reply(path: Seq<char>, status: u16) -> ReplyView<()> {
    if status == 202 || status == 404 {
        ReplyView::Done(())
    } else {
        ReplyView::Rejected(Operation::Delete, path, status)
    }
}

/// The content MD5 that an entity tag stands for: the tag without the quotes
/// around it.
pub open spec fn md5_of(etag: Option<Seq<char>>) -> Option<Seq<char>> {
    match etag {
        Some(t) => Some(trim(t, '"')),
        None => None,
    }
}

/// The mode of the object at an absolute path: a directory if the path ends
/// with `/`, else a file.
pub open spec fn mode_of(abs: Seq<char>) -> ObjectMode {
    if ends_with(abs, '/') {
        ObjectMode::DIR
    } else {
        ObjectMode::FILE
    }
}

/// What a response to asking for the properties of `path` means.
///
/// 200: the metadata that the headers give, or the error of a content
/// length that is no number or of a date that is none. 404 on a directory
/// path: a directory, since the flat namespace holds none. Everything else
/// is refused.
pub open spec fn stat_reply(
    b: BackendView,
    path: Seq<char>,
    status: u16,
    headers: Seq<(Seq<char>, Seq<char>)>,
) -> ReplyView<ObjectMetadataView> {
    let abs = abs_path(b.root, path);
    if status == 200 {
        match content_length_of(headers) {
            Err(reason) => ReplyView::Invalid(
                object_error(ErrorKind::Other, Operation::Stat, abs, reason),
            ),
            Ok(length) => match last_modified_of(headers) {
                Err(reason) => ReplyView::Invalid(
                    object_error(ErrorKind::Other, Operation::Stat, abs, reason),
                ),
                Ok(when) => ReplyView::Done(
                    ObjectMetadataView {
                        mode: mode_of(abs),
                        content_length: length,
                        etag: header_value(headers, "etag"@),
                        content_md5: md5_of(header_value(headers, "etag"@)),
                        last_modified: when,
                    },
                ),
            },
        }
    } else if status == 404 && ends_with(abs, '/') {
        ReplyView::Done(bare(ObjectMode::DIR))
    } else {
        ReplyView::Rejected(Operation::Stat, path, status)
    }
}

/// How `stat` of `path` goes on: the root is a directory, and nothing is
/// asked; for every other path the properties of the blob are asked for.
pub open spec fn stat_plan(b: BackendView, path: Seq<char>) -> Result<
    Option<HttpRequestView>,
    ErrorView,
> {
    if path == "/"@ {
        Ok(None)
    } else {
        let abs = abs_path(b.root, path);
        match requested(Operation::Stat, abs, plain_parts(Method::Head, blob_url(b, abs))) {
            Ok(v) => Ok(Some(v)),
            Err(e) => Err(e),
        }
    }
}

impl Backend {
    /// The path, as the service sees it, of `path` under the root.
    pub fn abs_path(&self, path: &str) -> (p: String)
        ensures
            p@ == abs_path(self@.root, path@),
    {
        proof {
            use_type_invariant(self);
        }
        build_abs_path(self.root.as_str(), path)
    }

    /// Begins `create`: the request that puts an empty blob.
    pub fn create(&self, args: &OpCreate) -> (r: Result<HttpRequest, Error>)
        ensures
            is_request(
                r,
                requested(
                    Operation::Create,
                    abs_path(self@.root, args@),
                    put_blob_parts(
                        self@,
                        abs_path(self@.root, args@),
                        Some(0u64),
                        AsyncBody::Empty,
                    ),
                ),
            ),
    {
        let p = self.abs_path(args.path());
        self.put_blob(Operation::Create, p.as_str(), Some(0), AsyncBody::Empty)
    }

    /// Ends `create`: what the response means. The error of a refusal names
    /// the path as the service sees it.
    pub fn create_response(&self, args: &OpCreate, status: u16) -> (r: Reply<()>)
        ensures
            is_plain_reply(
                r,
                put_reply(Operation::Create, abs_path(self@.root, args@), status, ()),
            ),
    {
        if status == 201 || status == 200 {
            Reply::Done(())
        } else {
            Reply::Rejected(
                Rejection { op: Operation::Create, path: self.abs_path(args.path()), status },
            )
        }
    }

    /// Begins `read`: the request that gets the blob, or the range of it.
    pub fn read(&self, args: &OpRead) -> (r: Result<HttpRequest, Error>)
        ensures
            is_request(
                r,
                get_blob_request(
                    self@,
                    abs_path(self@.root, args@.path),
                    args@.offset,
                    args@.size,
                ),
            ),
    {
        let p = self.abs_path(args.path());
        self.get_blob(p.as_str(), args.offset(), args.size())
    }

    /// Ends `read`: what the response means. On success its body is the
    /// reader.
    pub fn read_response(&self, args: &OpRead, status: u16) -> (r: Reply<()>)
        ensures
            is_plain_reply(r, read_reply(args@.path, status)),
    {
        if status == 200 || status == 206 {
            Reply::Done(())
        } else {
            Reply::Rejected(
                Rejection { op: Operation::Read, path: args.path().to_owned(), status },
            )
        }
    }

    /// Begins `write`: the request that puts the bytes of the reader.
    pub fn write(&self, args: &OpWrite) -> (r: Result<HttpRequest, Error>)
        ensures
            is_request(
                r,
                requested(
                    Operation::Write,
                    abs_path(self@.root, args@.0),
                    put_blob_parts(
                        self@,
                        abs_path(self@.root, args@.0),
                        Some(args@.1),
                        AsyncBody::Reader,
                    ),
                ),
            ),
    {
        let p = self.abs_path(args.path());
        self.put_blob_request(p.as_str(), Some(args.size()), AsyncBody::Reader)
    }

    /// Ends `write`: what the response means. On success the result is the
    /// number of bytes written.
    pub fn write_response(&self, args: &OpWrite, status: u16) -> (r: Reply<u64>)
        ensures
            is_plain_reply(r, put_reply(Operation::Write, args@.0, status, args@.1)),
    {
        if status == 201 || status == 200 {
            Reply::Done(args.size())
        } else {
            Reply::Rejected(
                Rejection { op: Operation::Write, path: args.path().to_owned(), status },
            )
        }
    }

    /// Begins `stat`. The root is a directory: that is known without asking
    /// the service.
    pub fn stat(&self, args: &OpStat) -> (r: Result<StatPlan, Error>)
        ensures
            args@ == "/"@ ==> (r matches Ok(StatPlan::Known(m)) && m@ == bare(ObjectMode::DIR)),
            match stat_plan(self@, args@) {
                Ok(None) => r matches Ok(StatPlan::Known(m)) && m@ == bare(ObjectMode::DIR),
                Ok(Some(v)) => r matches Ok(StatPlan::Ask(req)) && req@ == v,
                Err(e) => r is Err && r->Err_0@ == e,
            },
    {
        if str_eq(args.path(), "/") {
            return Ok(StatPlan::Known(ObjectMetadata::new(ObjectMode::DIR)));
        }
        let p = self.abs_path(args.path());
        match self.get_blob_properties(p.as_str()) {
            Ok(req) => Ok(StatPlan::Ask(req)),
            Err(e) => Err(e),
        }
    }

    /// Ends `stat`: what the response, with its headers, means.
    pub fn stat_response(&self, args: &OpStat, status: u16, headers: &Vec<(String, String)>) -> (r:
        Reply<ObjectMetadata>)
        ensures
            is_reply(r, stat_reply(self@, args@, status, headers_view(headers@))),
    {
        let p = self.abs_path(args.path());
        let is_dir = str_ends_with(p.as_str(), '/');
        if status == 200 {
            let mut m = ObjectMetadata::new(if is_dir {
                ObjectMode::DIR
            } else {
                ObjectMode::FILE
            });
            match parse_content_length(headers) {
                Err(reason) => {
                    return Reply::Invalid(
                        Error::new(ErrorKind::Other, Operation::Stat, p.as_str(), reason.as_str()),
                    );
                },
                Ok(Some(n)) => {
                    m.set_content_length(n);
                },
                Ok(None) => {},
            }
            match parse_etag(headers) {
                Some(v) => {
                    m.set_etag(v);
                    let md5 = trim_matches(v, '"');
                    m.set_content_md5(md5.as_str());
                },
                None => {},
            }
            match parse_last_modified(headers) {
                Err(reason) => {
                    return Reply::Invalid(
                        Error::new(ErrorKind::Other, Operation::Stat, p.as_str(), reason.as_str()),
                    );
                },
                Ok(Some(when)) => {
                    m.set_last_modified(when);
                },
                Ok(None) => {},
            }
            Reply::Done(m)
        } else if status == 404 && is_dir {
            Reply::Done(ObjectMetadata::new(ObjectMode::DIR))
        } else {
            Reply::Rejected(
                Rejection { op: Operation::Stat, path: args.path().to_owned(), status },
            )
        }
    }

    /// Begins `delete`: the request that deletes the blob.
    pub fn delete(&self, args: &OpDelete) -> (r: Result<HttpRequest, Error>)
        ensures
            is_request(
                r,
                requested(
                    Operation::Delete,
                    abs_path(self@.root, args@),
                    plain_parts(Method::Delete, blob_url(self@, abs_path(self@.root, args@))),
                ),
            ),
    {
        let p = self.abs_path(args.path());
        self.delete_blob(p.as_str())
    }

    /// Ends `delete`: what the response means. Deleting what is not there
    /// succeeds.
    pub fn delete_response(&self, args: &OpDelete, status: u16) -> (r: Reply<()>)
        ensures
            is_plain_reply(r, delete_reply(args@, status)),
    {
        if status == 202 || status == 404 {
            Reply::Done(())
        } else {
            Reply::Rejected(
                Rejection { op: Operation::Delete, path: args.path().to_owned(), status },
            )
        }
    }
}

/// A directory that the service does not know is a directory all the same:
/// whatever the root and the headers, `stat` of a path that ends with `/`
/// answers a 404 with the metadata of a directory. (The path `/` itself is
/// never asked for.)
pub proof fn lemma_missing_directory_is_directory(
    b: BackendView,
    path: Seq<char>,
    headers: Seq<(Seq<char>, Seq<char>)>,
)
    requires
        is_root(b.root),
        ends_with(path, '/'),
        path != seq!['/'],
    ensures
        stat_reply(b, path, 404, headers) == ReplyView::Done(bare(ObjectMode::DIR)),
{
    lemma_abs_path_keeps_directory(b.root, path);
}

impl Backend {
    /// What the response to the request of [`Backend::list_blobs`] for the
    /// absolute path `path` means. On success its body is the page.
    pub fn list_response(&self, path: &str, status: u16) -> (r: Reply<()>)
        ensures
            is_plain_reply(r, list_reply(path@, status)),
    {
        if status == 200 {
            Reply::Done(())
        } else {
            Reply::Rejected(Rejection { op: Operation::List, path: path.to_owned(), status })
        }
    }

    /// Begins `list`: the stream of the entries under the path, before its
    /// first page.
    pub fn list(&self, args: &OpList) -> (s: DirStream)
        ensures
            s@ == (DirStreamView {
                backend: self@,
                path: abs_path(self@.root, args@),
                next_marker: Seq::empty(),
                done: false,
            }),
    {
        let path = self.abs_path(args.path());
        DirStream::new(self.clone(), path.as_str())
    }
}

} // verus!
