use opendal::accessor::AccessorCapability;
use opendal::accessor::Scheme;
use opendal::error::ErrorKind;
use opendal::error::Operation;
use opendal::http_util::request::AsyncBody;
use opendal::http_util::request::HttpRequest;
use opendal::http_util::request::Method;
use opendal::object::ObjectMetadata;
use opendal::object::ObjectMode;
use opendal::ops::OpCreate;
use opendal::ops::OpDelete;
use opendal::ops::OpList;
use opendal::ops::OpRead;
use opendal::ops::OpStat;
use opendal::ops::OpWrite;
use opendal::services::azblob::backend::request_from;
use opendal::services::azblob::backend::Reply;
use opendal::services::azblob::backend::StatPlan;
use opendal::services::azblob::Backend;
use opendal::services::azblob::Builder;
use opendal::services::azblob::DirStream;

const ENDPOINT: &str = "http://127.0.0.1:10000/devstoreaccount1";

fn pairs(items: &[(&str, &str)]) -> Vec<(String, String)> {
    items
        .iter()
        .map(|(k, v)| (k.to_string(), v.to_string()))
        .collect()
}

fn backend(root: &str) -> Backend {
    let mut builder = Builder::default();
    builder.root(root).container("test").endpoint(ENDPOINT);
    builder.build().expect("container and endpoint are set")
}

fn done<T>(reply: Reply<T>) -> T {
    match reply {
        Reply::Done(v) => v,
        other => panic!("not done: {}", describe(&other)),
    }
}

fn describe<T>(reply: &Reply<T>) -> &'static str {
    match reply {
        Reply::Done(_) => "done",
        Reply::Invalid(_) => "invalid",
        Reply::Rejected(_) => "rejected",
    }
}

fn rejected<T>(reply: Reply<T>, text: &str) -> opendal::error::Error {
    match reply {
        Reply::Rejected(r) => r.into_error(text),
        other => panic!("not rejected: {}", describe(&other)),
    }
}

#[test]
fn builder_rejects_empty_container() {
    let mut builder = Builder::default();
    builder.endpoint(ENDPOINT).container("");
    let e = builder.build().unwrap_err();
    assert_eq!(e.subject(), "container");
    assert_eq!(e.description(), "container is empty");
    assert_eq!(e.kind(), ErrorKind::Other);
    assert_eq!(e.operation(), None);
    assert!(e.message().contains("container"));
}

#[test]
fn builder_rejects_missing_container() {
    let mut builder = Builder::default();
    builder.endpoint(ENDPOINT);
    let e = builder.build().unwrap_err();
    assert_eq!(e.subject(), "container");
}

#[test]
fn builder_rejects_missing_endpoint() {
    let mut builder = Builder::default();
    builder.container("test");
    let e = builder.build().unwrap_err();
    assert_eq!(e.subject(), "endpoint");
    assert_eq!(e.description(), "endpoint is empty");
    assert_eq!(e.kind(), ErrorKind::Other);
}

#[test]
fn builder_names_the_container_first_when_both_are_missing() {
    let e = Builder::default().build().unwrap_err();
    assert_eq!(e.subject(), "container");
}

#[test]
fn builder_ignores_empty_values() {
    let mut builder = Builder::default();
    builder
        .root("/data")
        .root("")
        .endpoint(ENDPOINT)
        .endpoint("")
        .account_name("name")
        .account_name("")
        .account_key("key")
        .account_key("")
        .container("test");
    assert_eq!(
        builder.credentials(),
        Some(("name".to_string(), "key".to_string()))
    );
    let b = builder.build().unwrap();
    assert_eq!(b.root(), "/data/");
    assert_eq!(b.endpoint(), ENDPOINT);
    assert_eq!(b.container(), "test");
    assert_eq!(b.account_name(), "name");
}

#[test]
fn builder_lets_the_container_be_emptied() {
    let mut builder = Builder::default();
    builder.endpoint(ENDPOINT).container("test").container("");
    assert_eq!(builder.build().unwrap_err().subject(), "container");
}

#[test]
fn endpoint_loses_its_trailing_slashes() {
    let mut builder = Builder::default();
    builder.container("test").endpoint("http://127.0.0.1:9000/");
    assert_eq!(builder.build().unwrap().endpoint(), "http://127.0.0.1:9000");
    let mut builder = Builder::default();
    builder.container("test").endpoint("http://127.0.0.1:9000///");
    assert_eq!(builder.build().unwrap().endpoint(), "http://127.0.0.1:9000");
}

#[test]
fn endpoint_of_slashes_only_is_set_and_empty() {
    let mut builder = Builder::default();
    builder.container("test").endpoint("/");
    assert_eq!(builder.build().unwrap().endpoint(), "");
}

#[test]
fn root_defaults_to_slash() {
    let mut builder = Builder::default();
    builder.container("test").endpoint(ENDPOINT);
    let b = builder.build().unwrap();
    assert_eq!(b.root(), "/");
    assert_eq!(b.account_name(), "");
}

#[test]
fn root_is_normalized() {
    assert_eq!(backend("abc").root(), "/abc/");
    assert_eq!(backend("/abc//def").root(), "/abc/def/");
    assert_eq!(backend("/").root(), "/");
}

#[test]
fn build_takes_root_and_account_name_out_of_the_builder() {
    let mut builder = Builder::default();
    builder
        .root("/data")
        .container("test")
        .endpoint(ENDPOINT)
        .account_name("name")
        .account_key("key");
    let first = builder.build().unwrap();
    assert_eq!(first.root(), "/data/");
    assert_eq!(first.account_name(), "name");
    assert_eq!(builder.credentials(), None);
    let second = builder.build().unwrap();
    assert_eq!(second.root(), "/");
    assert_eq!(second.account_name(), "");
    assert_eq!(second.container(), "test");
}

#[test]
fn credentials_need_both_name_and_key() {
    let mut builder = Builder::default();
    assert_eq!(builder.credentials(), None);
    builder.account_name("name");
    assert_eq!(builder.credentials(), None);
    builder.account_key("key");
    assert_eq!(
        builder.credentials(),
        Some(("name".to_string(), "key".to_string()))
    );
    let mut only_key = Builder::default();
    only_key.account_key("key");
    assert_eq!(only_key.credentials(), None);
}

#[test]
fn description_redacts_credentials() {
    let mut builder = Builder::default();
    builder
        .root("/data")
        .container("test")
        .endpoint(ENDPOINT)
        .account_name("account-of-mine")
        .account_key("bm90LWZvci1sb2dz");
    let text = builder.describe();
    assert_eq!(
        text,
        "Builder { root: Some(\"/data\"), container: \"test\", \
         endpoint: Some(\"http://127.0.0.1:10000/devstoreaccount1\"), \
         account_name: \"<redacted>\", account_key: \"<redacted>\" }"
    );
    assert!(!text.contains("bm90LWZvci1sb2dz"));
    assert!(!text.contains("account-of-mine"));
}

#[test]
fn description_of_a_blank_builder() {
    assert_eq!(
        Builder::default().describe(),
        "Builder { root: None, container: \"\", endpoint: None }"
    );
}

#[test]
fn from_iter_takes_known_keys_in_order() {
    let b = Backend::from_iter(pairs(&[
        ("root", "/first"),
        ("unknown", "ignored"),
        ("container", "test"),
        ("endpoint", "http://host/"),
        ("account_name", "name"),
        ("account_key", "key"),
        ("root", "/second/"),
        ("region", "nowhere"),
    ]))
    .unwrap();
    assert_eq!(b.root(), "/second/");
    assert_eq!(b.container(), "test");
    assert_eq!(b.endpoint(), "http://host");
    assert_eq!(b.account_name(), "name");
}

#[test]
fn from_iter_fails_as_the_builder_does() {
    let e = Backend::from_iter(pairs(&[("endpoint", ENDPOINT)])).unwrap_err();
    assert_eq!(e.subject(), "container");
    let e = Backend::from_iter(pairs(&[("container", "test")])).unwrap_err();
    assert_eq!(e.subject(), "endpoint");
    let e = Backend::from_iter(Vec::new()).unwrap_err();
    assert_eq!(e.subject(), "container");
    let e = Backend::from_iter(pairs(&[("Container", "test"), ("endpoint", ENDPOINT)]))
        .unwrap_err();
    assert_eq!(e.subject(), "container");
}

#[test]
fn metadata_of_the_backend() {
    let m = backend("/data").metadata();
    assert_eq!(m.scheme(), Scheme::Azblob);
    assert_eq!(m.root(), "/data/");
    assert_eq!(m.name(), "test");
    let caps = m.capabilities();
    assert_eq!(caps.bits(), 7);
    assert!(caps.has(AccessorCapability::Read));
    assert!(caps.has(AccessorCapability::Write));
    assert!(caps.has(AccessorCapability::List));
    assert!(!caps.has(AccessorCapability::Presign));
    assert!(!caps.has(AccessorCapability::Multipart));
    assert!(!caps.has(AccessorCapability::Blocking));
}

#[test]
fn get_blob_without_a_range() {
    let req = backend("/").get_blob("dir/file", None, None).unwrap();
    assert_eq!(req.method(), Method::Get);
    assert_eq!(
        req.url(),
        "http://127.0.0.1:10000/devstoreaccount1/test/dir/file"
    );
    assert!(req.headers().is_empty());
    assert_eq!(req.body(), AsyncBody::Empty);
}

#[test]
fn get_blob_with_ranges() {
    let b = backend("/");
    let req = b.get_blob("file", Some(4), Some(16)).unwrap();
    assert_eq!(req.headers(), &pairs(&[("range", "bytes=4-19")]));
    let req = b.get_blob("file", Some(0), Some(1)).unwrap();
    assert_eq!(req.headers(), &pairs(&[("range", "bytes=0-0")]));
    let req = b.get_blob("file", Some(4), None).unwrap();
    assert_eq!(req.headers(), &pairs(&[("range", "bytes=4-")]));
    let req = b.get_blob("file", None, Some(16)).unwrap();
    assert_eq!(req.headers(), &pairs(&[("range", "bytes=-16")]));
    let req = b.get_blob("file", Some(u64::MAX), Some(u64::MAX)).unwrap();
    assert_eq!(
        req.headers(),
        &pairs(&[("range", "bytes=18446744073709551615-36893488147419103229")])
    );
}

#[test]
fn get_blob_refuses_an_empty_range() {
    let e = backend("/").get_blob("file", Some(0), Some(0)).unwrap_err();
    assert_eq!(e.kind(), ErrorKind::InvalidInput);
    assert_eq!(e.operation(), Some(Operation::Read));
    assert_eq!(e.subject(), "file");
    assert_eq!(e.description(), "range is empty");
    let args = OpRead::new("file", Some(0), Some(0)).unwrap();
    assert_eq!(backend("/").read(&args).unwrap_err().description(), "range is empty");
}

#[test]
fn get_blob_writes_no_bytes_from_a_later_offset_as_the_formula_says() {
    let b = backend("/");
    let req = b.get_blob("file", Some(4), Some(0)).unwrap();
    assert_eq!(req.headers(), &pairs(&[("range", "bytes=4-3")]));
    let req = b.get_blob("file", Some(1), Some(0)).unwrap();
    assert_eq!(req.headers(), &pairs(&[("range", "bytes=1-0")]));
    let req = b.get_blob("file", None, Some(0)).unwrap();
    assert_eq!(req.headers(), &pairs(&[("range", "bytes=-0")]));
    let req = b.get_blob("file", Some(0), None).unwrap();
    assert_eq!(req.headers(), &pairs(&[("range", "bytes=0-")]));
}

#[test]
fn blob_url_encodes_the_path() {
    let req = backend("/").get_blob("dir/a b+c/é.txt", None, None).unwrap();
    assert_eq!(
        req.url(),
        "http://127.0.0.1:10000/devstoreaccount1/test/dir/a%20b%2Bc/%C3%A9.txt"
    );
}

#[test]
fn put_blob_request_sets_length_and_blob_type() {
    let req = backend("/")
        .put_blob_request("file", Some(1024), AsyncBody::Reader)
        .unwrap();
    assert_eq!(req.method(), Method::Put);
    assert_eq!(req.url(), "http://127.0.0.1:10000/devstoreaccount1/test/file");
    assert_eq!(
        req.headers(),
        &pairs(&[("content-length", "1024"), ("x-ms-blob-type", "BlockBlob")])
    );
    assert_eq!(req.body(), AsyncBody::Reader);

    let req = backend("/")
        .put_blob_request("file", None, AsyncBody::Empty)
        .unwrap();
    assert_eq!(req.headers(), &pairs(&[("x-ms-blob-type", "BlockBlob")]));
    assert_eq!(req.body(), AsyncBody::Empty);
}

#[test]
fn head_and_delete_requests() {
    let b = backend("/");
    let req = b.get_blob_properties("dir/file").unwrap();
    assert_eq!(req.method(), Method::Head);
    assert_eq!(
        req.url(),
        "http://127.0.0.1:10000/devstoreaccount1/test/dir/file"
    );
    assert!(req.headers().is_empty());
    assert_eq!(req.body(), AsyncBody::Empty);

    let req = b.delete_blob("dir/file").unwrap();
    assert_eq!(req.method(), Method::Delete);
    assert_eq!(
        req.url(),
        "http://127.0.0.1:10000/devstoreaccount1/test/dir/file"
    );
    assert!(req.headers().is_empty());
}

#[test]
fn list_requests() {
    let b = backend("/");
    let base = "http://127.0.0.1:10000/devstoreaccount1/test?restype=container&comp=list&delimiter=/";
    let req = b.list_blobs("", "").unwrap();
    assert_eq!(req.method(), Method::Get);
    assert_eq!(req.url(), base);
    let req = b.list_blobs("dir/a b/", "").unwrap();
    assert_eq!(req.url(), format!("{}&prefix=dir/a%20b/", base));
    let req = b.list_blobs("", "token-2").unwrap();
    assert_eq!(req.url(), format!("{}&marker=token-2", base));
    let req = b.list_blobs("dir/", "token-2").unwrap();
    assert_eq!(req.url(), format!("{}&prefix=dir/&marker=token-2", base));
    assert!(req.headers().is_empty());
    assert_eq!(req.body(), AsyncBody::Empty);
}

#[test]
fn request_with_an_unusable_endpoint_is_a_build_error() {
    let mut builder = Builder::default();
    builder.container("test").endpoint("http://bad host");
    let b = builder.build().unwrap();

    let e = b.get_blob("file", None, None).unwrap_err();
    assert_eq!(e.kind(), ErrorKind::Other);
    assert_eq!(e.operation(), Some(Operation::Read));
    assert_eq!(e.subject(), "file");
    assert!(e.description().starts_with("build request: "));
    assert!(!e.is_retryable());

    assert_eq!(
        b.put_blob_request("file", Some(1), AsyncBody::Reader)
            .unwrap_err()
            .operation(),
        Some(Operation::Write)
    );
    assert_eq!(
        b.get_blob_properties("file").unwrap_err().operation(),
        Some(Operation::Stat)
    );
    assert_eq!(
        b.delete_blob("file").unwrap_err().operation(),
        Some(Operation::Delete)
    );
    assert_eq!(
        b.list_blobs("dir/", "").unwrap_err().operation(),
        Some(Operation::List)
    );
}

#[test]
fn create_with_an_unusable_endpoint_names_create() {
    let mut builder = Builder::default();
    builder.container("test").endpoint("http://bad host");
    let b = builder.build().unwrap();
    let e = b.create(&OpCreate::new("dir/new").unwrap()).unwrap_err();
    assert_eq!(e.kind(), ErrorKind::Other);
    assert_eq!(e.operation(), Some(Operation::Create));
    assert_eq!(e.subject(), "dir/new");
    assert!(e.description().starts_with("build request: "));
    let e = b.write(&OpWrite::new("dir/new", 1).unwrap()).unwrap_err();
    assert_eq!(e.operation(), Some(Operation::Write));
}

#[test]
fn list_response_by_status() {
    let b = backend("/data");
    done(b.list_response("data/dir/", 200));
    for (status, kind) in [
        (201u16, ErrorKind::Other),
        (206, ErrorKind::Other),
        (403, ErrorKind::PermissionDenied),
        (404, ErrorKind::NotFound),
        (500, ErrorKind::Interrupted),
        (503, ErrorKind::Interrupted),
    ] {
        let e = rejected(b.list_response("data/dir/", status), "why");
        assert_eq!(e.kind(), kind);
        assert_eq!(e.operation(), Some(Operation::List));
        assert_eq!(e.subject(), "data/dir/");
        assert_eq!(e.status(), Some(status));
        assert_eq!(e.description(), "why");
    }
}

#[test]
fn request_from_maps_a_refusal_to_a_build_error() {
    let e = request_from(
        Operation::Stat,
        "dir/file",
        Err("invalid uri character".to_string()),
    )
    .unwrap_err();
    assert_eq!(e.kind(), ErrorKind::Other);
    assert_eq!(e.operation(), Some(Operation::Stat));
    assert_eq!(e.subject(), "dir/file");
    assert_eq!(e.description(), "build request: invalid uri character");

    let req = HttpRequest::build(
        Method::Head,
        "http://host/x".to_string(),
        Vec::new(),
        AsyncBody::Empty,
    )
    .unwrap();
    assert_eq!(
        request_from(Operation::Stat, "x", Ok(req.clone())),
        Ok(req)
    );
}

#[test]
fn create_puts_an_empty_blob_under_the_root() {
    let b = backend("/data");
    let req = b.create(&OpCreate::new("dir/new").unwrap()).unwrap();
    assert_eq!(req.method(), Method::Put);
    assert_eq!(
        req.url(),
        "http://127.0.0.1:10000/devstoreaccount1/test/data/dir/new"
    );
    assert_eq!(
        req.headers(),
        &pairs(&[("content-length", "0"), ("x-ms-blob-type", "BlockBlob")])
    );
    assert_eq!(req.body(), AsyncBody::Empty);
}

#[test]
fn create_response_by_status() {
    let b = backend("/data");
    let args = OpCreate::new("dir/new").unwrap();
    done(b.create_response(&args, 201));
    done(b.create_response(&args, 200));
    for status in [202u16, 204, 400, 403, 404, 409, 500, 503] {
        let e = rejected(b.create_response(&args, status), "why");
        assert_eq!(e.operation(), Some(Operation::Create));
        assert_eq!(e.subject(), "data/dir/new");
        assert_eq!(e.status(), Some(status));
        assert_eq!(e.description(), "why");
    }
}

#[test]
fn read_asks_for_the_range() {
    let b = backend("/data");
    let req = b.read(&OpRead::new("file", Some(10), Some(5)).unwrap()).unwrap();
    assert_eq!(req.method(), Method::Get);
    assert_eq!(
        req.url(),
        "http://127.0.0.1:10000/devstoreaccount1/test/data/file"
    );
    assert_eq!(req.headers(), &pairs(&[("range", "bytes=10-14")]));
    let req = b.read(&OpRead::new("file", None, None).unwrap()).unwrap();
    assert!(req.headers().is_empty());
}

#[test]
fn read_response_by_status() {
    let b = backend("/data");
    let args = OpRead::new("file", None, None).unwrap();
    done(b.read_response(&args, 200));
    done(b.read_response(&args, 206));
    let e = rejected(b.read_response(&args, 404), "BlobNotFound");
    assert_eq!(e.kind(), ErrorKind::NotFound);
    assert_eq!(e.operation(), Some(Operation::Read));
    assert_eq!(e.subject(), "file");
    assert_eq!(e.status(), Some(404));
    let e = rejected(b.read_response(&args, 503), "ServerBusy");
    assert_eq!(e.kind(), ErrorKind::Interrupted);
    let e = rejected(b.read_response(&args, 201), "");
    assert_eq!(e.kind(), ErrorKind::Other);
    let e = rejected(b.read_response(&args, 416), "InvalidRange");
    assert_eq!(e.kind(), ErrorKind::Other);
}

#[test]
fn write_sends_the_reader_with_its_size() {
    let b = backend("/data");
    let req = b.write(&OpWrite::new("file", 77).unwrap()).unwrap();
    assert_eq!(req.method(), Method::Put);
    assert_eq!(
        req.headers(),
        &pairs(&[("content-length", "77"), ("x-ms-blob-type", "BlockBlob")])
    );
    assert_eq!(req.body(), AsyncBody::Reader);
    assert_eq!(
        req.url(),
        "http://127.0.0.1:10000/devstoreaccount1/test/data/file"
    );
}

#[test]
fn write_response_by_status() {
    let b = backend("/data");
    let args = OpWrite::new("file", 77).unwrap();
    assert_eq!(done(b.write_response(&args, 201)), 77);
    assert_eq!(done(b.write_response(&args, 200)), 77);
    let e = rejected(b.write_response(&args, 403), "AuthorizationFailure");
    assert_eq!(e.kind(), ErrorKind::PermissionDenied);
    assert_eq!(e.operation(), Some(Operation::Write));
    assert_eq!(e.subject(), "file");
    let e = rejected(b.write_response(&args, 500), "InternalError");
    assert_eq!(e.kind(), ErrorKind::Interrupted);
}

#[test]
fn stat_of_the_root_asks_nothing() {
    for root in ["/", "/data/"] {
        let b = backend(root);
        match b.stat(&OpStat::new("/").unwrap()).unwrap() {
            StatPlan::Known(m) => assert_eq!(m, ObjectMetadata::new(ObjectMode::DIR)),
            StatPlan::Ask(_) => panic!("the root needs no request"),
        }
    }
    // Not even an endpoint that no request can be built for matters.
    let mut builder = Builder::default();
    builder.container("test").endpoint("http://bad host");
    let b = builder.build().unwrap();
    match b.stat(&OpStat::new("/").unwrap()).unwrap() {
        StatPlan::Known(m) => assert_eq!(m.mode(), ObjectMode::DIR),
        StatPlan::Ask(_) => panic!("the root needs no request"),
    }
    assert!(b.stat(&OpStat::new("file").unwrap()).is_err());
}

#[test]
fn stat_of_another_path_asks_for_properties() {
    let b = backend("/data");
    match b.stat(&OpStat::new("dir/file").unwrap()).unwrap() {
        StatPlan::Ask(req) => {
            assert_eq!(req.method(), Method::Head);
            assert_eq!(
                req.url(),
                "http://127.0.0.1:10000/devstoreaccount1/test/data/dir/file"
            );
        }
        StatPlan::Known(_) => panic!("a file must be asked for"),
    }
}

#[test]
fn stat_missing_directory_is_a_directory() {
    let b = backend("/");
    let args = OpStat::new("dir/").unwrap();
    let m = done(b.stat_response(&args, 404, &Vec::new()));
    assert_eq!(m.mode(), ObjectMode::DIR);
    assert_eq!(m, ObjectMetadata::new(ObjectMode::DIR));
}

#[test]
fn stat_missing_file_is_not_found() {
    let b = backend("/");
    let args = OpStat::new("dir/file").unwrap();
    let e = rejected(b.stat_response(&args, 404, &Vec::new()), "BlobNotFound");
    assert_eq!(e.kind(), ErrorKind::NotFound);
    assert_eq!(e.operation(), Some(Operation::Stat));
    assert_eq!(e.subject(), "dir/file");
    assert_eq!(e.status(), Some(404));
}

#[test]
fn stat_reads_the_headers() {
    let b = backend("/data");
    let args = OpStat::new("dir/file").unwrap();
    let headers = pairs(&[
        ("content-length", "1024"),
        ("etag", "\"0x8D9F2C1A\""),
        ("last-modified", "Sun, 06 Nov 1994 08:49:37 GMT"),
        ("x-ms-request-id", "1"),
    ]);
    let m = done(b.stat_response(&args, 200, &headers));
    assert_eq!(m.mode(), ObjectMode::FILE);
    assert_eq!(m.content_length(), Some(1024));
    assert_eq!(m.etag(), Some("\"0x8D9F2C1A\""));
    assert_eq!(m.content_md5(), Some("0x8D9F2C1A"));
    assert_eq!(m.last_modified(), Some(784111777));
}

#[test]
fn stat_with_a_bad_date_is_invalid() {
    let b = backend("/data");
    let args = OpStat::new("file").unwrap();
    let headers = pairs(&[("content-length", "3"), ("last-modified", "06 Nov 1994")]);
    match b.stat_response(&args, 200, &headers) {
        Reply::Invalid(e) => {
            assert_eq!(e.kind(), ErrorKind::Other);
            assert_eq!(e.operation(), Some(Operation::Stat));
            assert_eq!(e.subject(), "data/file");
            assert_eq!(e.description(), "invalid last-modified: 06 Nov 1994");
        }
        other => panic!("not invalid: {}", describe(&other)),
    }
    // A bad length is told first.
    let headers = pairs(&[("last-modified", "06 Nov 1994"), ("content-length", "x")]);
    match b.stat_response(&args, 200, &headers) {
        Reply::Invalid(e) => assert_eq!(e.description(), "invalid content-length: x"),
        other => panic!("not invalid: {}", describe(&other)),
    }
}

#[test]
fn metadata_setters_change_one_field_each() {
    let mut m = ObjectMetadata::new(ObjectMode::Unknown);
    assert_eq!(m.mode(), ObjectMode::Unknown);
    assert_eq!(m.content_length(), None);
    assert_eq!(m.etag(), None);
    assert_eq!(m.content_md5(), None);
    assert_eq!(m.last_modified(), None);
    m.set_mode(ObjectMode::FILE);
    m.set_content_length(3);
    m.set_etag("\"e\"");
    m.set_content_md5("e");
    m.set_last_modified(-1);
    assert_eq!(m.mode(), ObjectMode::FILE);
    assert_eq!(m.content_length(), Some(3));
    assert_eq!(m.etag(), Some("\"e\""));
    assert_eq!(m.content_md5(), Some("e"));
    assert_eq!(m.last_modified(), Some(-1));
}

#[test]
fn stat_without_headers_knows_the_mode_only() {
    let b = backend("/");
    let m = done(b.stat_response(&OpStat::new("file").unwrap(), 200, &Vec::new()));
    assert_eq!(m, ObjectMetadata::new(ObjectMode::FILE));
    let m = done(b.stat_response(&OpStat::new("dir/").unwrap(), 200, &Vec::new()));
    assert_eq!(m, ObjectMetadata::new(ObjectMode::DIR));
}

#[test]
fn stat_with_a_bad_content_length_is_invalid() {
    let b = backend("/data");
    let args = OpStat::new("file").unwrap();
    let headers = pairs(&[("content-length", "many"), ("etag", "\"x\"")]);
    match b.stat_response(&args, 200, &headers) {
        Reply::Invalid(e) => {
            assert_eq!(e.kind(), ErrorKind::Other);
            assert_eq!(e.operation(), Some(Operation::Stat));
            assert_eq!(e.subject(), "data/file");
            assert_eq!(e.description(), "invalid content-length: many");
        }
        other => panic!("not invalid: {}", describe(&other)),
    }
}

#[test]
fn stat_other_statuses_are_refused() {
    let b = backend("/");
    for path in ["file", "dir/"] {
        let args = OpStat::new(path).unwrap();
        for (status, kind) in [
            (403u16, ErrorKind::PermissionDenied),
            (500, ErrorKind::Interrupted),
            (503, ErrorKind::Interrupted),
            (400, ErrorKind::Other),
            (206, ErrorKind::Other),
        ] {
            let e = rejected(b.stat_response(&args, status, &Vec::new()), "x");
            assert_eq!(e.kind(), kind);
            assert_eq!(e.subject(), path);
        }
    }
}

#[test]
fn delete_asks_to_delete_under_the_root() {
    let b = backend("/data");
    let req = b.delete(&OpDelete::new("dir/file").unwrap()).unwrap();
    assert_eq!(req.method(), Method::Delete);
    assert_eq!(
        req.url(),
        "http://127.0.0.1:10000/devstoreaccount1/test/data/dir/file"
    );
}

#[test]
fn delete_is_idempotent() {
    let b = backend("/");
    let args = OpDelete::new("file").unwrap();
    done(b.delete_response(&args, 404));
    done(b.delete_response(&args, 202));
}

#[test]
fn delete_other_statuses_are_refused() {
    let b = backend("/");
    let args = OpDelete::new("file").unwrap();
    for status in [200u16, 201, 204, 403, 409, 500] {
        let reply = b.delete_response(&args, status);
        match &reply {
            Reply::Rejected(r) => assert_eq!(r.status(), status),
            other => panic!("not rejected: {}", describe(other)),
        }
        let e = rejected(reply, "x");
        assert_eq!(e.operation(), Some(Operation::Delete));
        assert_eq!(e.subject(), "file");
    }
}

#[test]
fn list_pages_until_the_marker_is_empty() {
    let b = backend("/data");
    let mut stream: DirStream = b.list(&OpList::new("dir/").unwrap());
    assert_eq!(stream.path(), "data/dir/");
    assert!(!stream.is_done());
    let base = "http://127.0.0.1:10000/devstoreaccount1/test?restype=container&comp=list&delimiter=/&prefix=data/dir/";

    let req = stream.next_request().unwrap().unwrap();
    assert_eq!(req.method(), Method::Get);
    assert_eq!(req.url(), base);

    stream.on_page("page-2");
    assert!(!stream.is_done());
    let req = stream.next_request().unwrap().unwrap();
    assert_eq!(req.url(), format!("{}&marker=page-2", base));

    stream.on_page("page-3");
    let req = stream.next_request().unwrap().unwrap();
    assert_eq!(req.url(), format!("{}&marker=page-3", base));

    stream.on_page("");
    assert!(stream.is_done());
    assert!(stream.next_request().is_none());
    stream.on_page("late");
    assert!(stream.is_done());
    assert!(stream.next_request().is_none());
}

#[test]
fn list_of_the_root_has_no_prefix_under_slash() {
    let b = backend("/");
    let stream = b.list(&OpList::new("/").unwrap());
    assert_eq!(stream.path(), "");
    let req = stream.next_request().unwrap().unwrap();
    assert_eq!(
        req.url(),
        "http://127.0.0.1:10000/devstoreaccount1/test?restype=container&comp=list&delimiter=/"
    );
}

#[test]
fn list_ends_on_an_error() {
    let b = backend("/");
    let mut stream = b.list(&OpList::new("dir/").unwrap());
    stream.on_page("page-2");
    stream.on_error();
    assert!(stream.is_done());
    assert!(stream.next_request().is_none());
}

#[test]
fn abs_path_of_the_backend() {
    let b = backend("/data");
    assert_eq!(b.abs_path("file"), "data/file");
    assert_eq!(b.abs_path("/"), "data/");
    assert_eq!(backend("/").abs_path("dir/"), "dir/");
}

#[test]
fn backend_clone_is_the_same_backend() {
    let b = backend("/data");
    let c = b.clone();
    assert_eq!(c.root(), b.root());
    assert_eq!(c.container(), b.container());
    assert_eq!(c.endpoint(), b.endpoint());
    assert_eq!(c.account_name(), b.account_name());
}
