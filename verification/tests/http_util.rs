use opendal::error::Error;
use opendal::error::ErrorKind;
use opendal::error::Operation;
use opendal::http_util::encode::percent_encode_path;
use opendal::http_util::error::new_request_build_error;
use opendal::http_util::error::new_request_send_error;
use opendal::http_util::error::new_request_sign_error;
use opendal::http_util::error::new_response_consume_error;
use opendal::http_util::error::parse_error;
use opendal::http_util::header::find_header;
use opendal::http_util::header::parse_content_length;
use opendal::http_util::header::parse_etag;
use opendal::http_util::header::parse_last_modified;
use opendal::http_util::number::format_decimal;
use opendal::http_util::number::parse_u64;
use opendal::http_util::request::AsyncBody;
use opendal::http_util::request::HttpRequest;
use opendal::http_util::request::Method;
use opendal::text::str_ends_with;
use opendal::text::trim_end_matches;
use opendal::text::trim_matches;

fn pairs(items: &[(&str, &str)]) -> Vec<(String, String)> {
    items
        .iter()
        .map(|(k, v)| (k.to_string(), v.to_string()))
        .collect()
}

#[test]
fn unreserved_characters_stand_for_themselves() {
    let plain = "abcxyzABCXYZ0189/-_.!~*'()";
    assert_eq!(percent_encode_path(plain), plain);
    assert_eq!(percent_encode_path(""), "");
}

#[test]
fn other_characters_are_percent_encoded() {
    assert_eq!(percent_encode_path(" "), "%20");
    assert_eq!(percent_encode_path("a b"), "a%20b");
    assert_eq!(percent_encode_path("a+b"), "a%2Bb");
    assert_eq!(percent_encode_path("100%"), "100%25");
    assert_eq!(percent_encode_path("q?x=1&y=2#z"), "q%3Fx%3D1%26y%3D2%23z");
    assert_eq!(percent_encode_path("\u{0}\u{7f}"), "%00%7F");
    assert_eq!(percent_encode_path("[]{}|\\^`\"<>"), "%5B%5D%7B%7D%7C%5C%5E%60%22%3C%3E");
    assert_eq!(percent_encode_path("a:b;c,d@e$f"), "a%3Ab%3Bc%2Cd%40e%24f");
}

#[test]
fn other_scripts_are_encoded_byte_by_byte() {
    assert_eq!(percent_encode_path("é"), "%C3%A9");
    assert_eq!(percent_encode_path("dir/文件.txt"), "dir/%E6%96%87%E4%BB%B6.txt");
    assert_eq!(percent_encode_path("😀"), "%F0%9F%98%80");
}

#[test]
fn decimal_text_of_numbers() {
    assert_eq!(format_decimal(0), "0");
    assert_eq!(format_decimal(7), "7");
    assert_eq!(format_decimal(10), "10");
    assert_eq!(format_decimal(1024), "1024");
    assert_eq!(format_decimal(u64::MAX as u128), "18446744073709551615");
    assert_eq!(
        format_decimal(u128::MAX),
        "340282366920938463463374607431768211455"
    );
}

#[test]
fn numbers_of_decimal_text() {
    assert_eq!(parse_u64("0"), Some(0));
    assert_eq!(parse_u64("7"), Some(7));
    assert_eq!(parse_u64("0042"), Some(42));
    assert_eq!(parse_u64("+5"), Some(5));
    assert_eq!(parse_u64("18446744073709551615"), Some(u64::MAX));
    assert_eq!(parse_u64("000018446744073709551615"), Some(u64::MAX));
}

#[test]
fn what_is_no_number() {
    assert_eq!(parse_u64(""), None);
    assert_eq!(parse_u64("+"), None);
    assert_eq!(parse_u64("-1"), None);
    assert_eq!(parse_u64("++1"), None);
    assert_eq!(parse_u64("1+"), None);
    assert_eq!(parse_u64(" 1"), None);
    assert_eq!(parse_u64("1 "), None);
    assert_eq!(parse_u64("12a"), None);
    assert_eq!(parse_u64("1.5"), None);
    assert_eq!(parse_u64("٣"), None);
    assert_eq!(parse_u64("18446744073709551616"), None);
    assert_eq!(parse_u64("99999999999999999999"), None);
    assert_eq!(parse_u64("184467440737095516150"), None);
}

#[test]
fn parse_agrees_with_the_standard_library() {
    for s in ["0", "1", "+1", "-1", "", "+", "007", "18446744073709551615", "18446744073709551616", "1_000", "0x10"] {
        assert_eq!(parse_u64(s), s.parse::<u64>().ok(), "{:?}", s);
    }
    for n in [0u64, 9, 10, 99, 100, 123456789, u64::MAX] {
        assert_eq!(format_decimal(n as u128), n.to_string());
        assert_eq!(parse_u64(&format_decimal(n as u128)), Some(n));
    }
}

#[test]
fn trimming() {
    assert_eq!(trim_end_matches("http://host/", '/'), "http://host");
    assert_eq!(trim_end_matches("http://host///", '/'), "http://host");
    assert_eq!(trim_end_matches("http://host", '/'), "http://host");
    assert_eq!(trim_end_matches("///", '/'), "");
    assert_eq!(trim_end_matches("", '/'), "");
    assert_eq!(trim_end_matches("/a/b", '/'), "/a/b");
    assert_eq!(trim_matches("\"abc\"", '"'), "abc");
    assert_eq!(trim_matches("\"\"a\"b\"\"", '"'), "a\"b");
    assert_eq!(trim_matches("abc", '"'), "abc");
    assert_eq!(trim_matches("\"\"", '"'), "");
    assert_eq!(trim_matches("\"", '"'), "");
    assert_eq!(trim_matches("", '"'), "");
}

#[test]
fn ends_with_a_character() {
    assert!(str_ends_with("dir/", '/'));
    assert!(str_ends_with("/", '/'));
    assert!(!str_ends_with("", '/'));
    assert!(!str_ends_with("file", '/'));
    assert!(!str_ends_with("/file", '/'));
    assert!(str_ends_with("é", 'é'));
}

#[test]
fn first_header_of_a_name_wins() {
    let headers = pairs(&[("etag", "\"a\""), ("content-length", "12"), ("etag", "\"b\"")]);
    assert_eq!(find_header(&headers, "etag"), Some("\"a\""));
    assert_eq!(find_header(&headers, "content-length"), Some("12"));
    assert_eq!(find_header(&headers, "last-modified"), None);
    assert_eq!(find_header(&Vec::new(), "etag"), None);
    assert_eq!(parse_etag(&headers), Some("\"a\""));
    assert_eq!(parse_last_modified(&headers), Ok(None));
}

#[test]
fn content_length_is_a_number_or_an_error() {
    assert_eq!(parse_content_length(&pairs(&[])), Ok(None));
    assert_eq!(
        parse_content_length(&pairs(&[("content-length", "1024")])),
        Ok(Some(1024))
    );
    assert_eq!(
        parse_content_length(&pairs(&[("content-length", "ten")])),
        Err("invalid content-length: ten".to_string())
    );
    assert_eq!(
        parse_content_length(&pairs(&[("content-length", "")])),
        Err("invalid content-length: ".to_string())
    );
}

#[test]
fn last_modified_is_a_date_or_an_error() {
    let headers = pairs(&[("last-modified", "Sun, 06 Nov 1994 08:49:37 GMT")]);
    assert_eq!(parse_last_modified(&headers), Ok(Some(784111777)));
    assert_eq!(parse_last_modified(&pairs(&[("etag", "x")])), Ok(None));
    assert_eq!(
        parse_last_modified(&pairs(&[("last-modified", "yesterday")])),
        Err("invalid last-modified: yesterday".to_string())
    );
}

#[test]
fn status_decides_the_kind_of_a_service_error() {
    let cases = [
        (404, ErrorKind::NotFound),
        (403, ErrorKind::PermissionDenied),
        (500, ErrorKind::Interrupted),
        (502, ErrorKind::Interrupted),
        (503, ErrorKind::Interrupted),
        (504, ErrorKind::Interrupted),
        (400, ErrorKind::Other),
        (401, ErrorKind::Other),
        (409, ErrorKind::Other),
        (412, ErrorKind::Other),
        (501, ErrorKind::Other),
        (200, ErrorKind::Other),
    ];
    for (status, kind) in cases {
        let e = parse_error(Operation::Read, "file", status, "BlobNotFound");
        assert_eq!(e.kind(), kind, "{}", status);
        assert_eq!(e.operation(), Some(Operation::Read));
        assert_eq!(e.subject(), "file");
        assert_eq!(e.status(), Some(status));
        assert_eq!(e.description(), "BlobNotFound");
    }
}

#[test]
fn errors_before_a_response() {
    let e = new_request_build_error(Operation::Write, "p", "invalid uri character");
    assert_eq!(e.kind(), ErrorKind::Other);
    assert_eq!(e.description(), "build request: invalid uri character");
    assert_eq!(e.operation(), Some(Operation::Write));
    assert_eq!(e.subject(), "p");

    let e = new_request_sign_error(Operation::Stat, "p", "no credential");
    assert_eq!(e.kind(), ErrorKind::Other);
    assert!(!e.is_retryable());
    assert_eq!(e.description(), "sign request: no credential");

    let e = new_request_send_error(Operation::Read, "p", true, "connection reset");
    assert_eq!(e.kind(), ErrorKind::Interrupted);
    assert_eq!(e.description(), "send request: connection reset");
    let e = new_request_send_error(Operation::Read, "p", false, "timed out");
    assert_eq!(e.kind(), ErrorKind::Other);

    let e = new_response_consume_error(Operation::Create, "p", ErrorKind::Interrupted, "eof");
    assert_eq!(e.kind(), ErrorKind::Interrupted);
    assert_eq!(e.description(), "consuming response: eof");
}

#[test]
fn error_text_names_operation_and_path() {
    let e = Error::new(ErrorKind::NotFound, Operation::Stat, "dir/file", "no such blob");
    assert_eq!(e.message(), "stat dir/file: no such blob");
    let e = parse_error(Operation::Delete, "dir/file", 503, "ServerBusy");
    assert_eq!(e.message(), "delete dir/file (status 503): ServerBusy");
    let e = Error::config("container", "container is empty");
    assert_eq!(e.message(), "config container: container is empty");
    assert_eq!(e.operation(), None);
    let e = Error::unsupported(Operation::Presign, "file");
    assert_eq!(e.kind(), ErrorKind::Unsupported);
    assert_eq!(e.message(), "presign file: operation is not supported");
    let e = Error::is_a_directory(Operation::WriteMultipart, "dir/");
    assert_eq!(e.message(), "write_multipart dir/: Is a directory");
}

#[test]
fn operation_names() {
    let names = [
        (Operation::Metadata, "metadata"),
        (Operation::Create, "create"),
        (Operation::Read, "read"),
        (Operation::Write, "write"),
        (Operation::Stat, "stat"),
        (Operation::Delete, "delete"),
        (Operation::List, "list"),
        (Operation::Presign, "presign"),
        (Operation::CreateMultipart, "create_multipart"),
        (Operation::WriteMultipart, "write_multipart"),
        (Operation::CompleteMultipart, "complete_multipart"),
        (Operation::AbortMultipart, "abort_multipart"),
    ];
    for (op, name) in names {
        assert_eq!(op.name(), name);
    }
    assert_eq!(Method::Get.name(), "GET");
    assert_eq!(Method::Put.name(), "PUT");
    assert_eq!(Method::Head.name(), "HEAD");
    assert_eq!(Method::Delete.name(), "DELETE");
}

#[test]
fn request_is_built_when_http_accepts_it() {
    let headers = pairs(&[("content-length", "3"), ("x-ms-blob-type", "BlockBlob")]);
    let req = HttpRequest::build(
        Method::Put,
        "http://127.0.0.1:10000/devstoreaccount1/c/file".to_string(),
        headers.clone(),
        AsyncBody::Reader,
    )
    .unwrap();
    assert_eq!(req.method(), Method::Put);
    assert_eq!(req.url(), "http://127.0.0.1:10000/devstoreaccount1/c/file");
    assert_eq!(req.headers(), &headers);
    assert_eq!(req.body(), AsyncBody::Reader);

    // The same parts make a request of the `http` crate.
    let built = http::Request::builder()
        .method(req.method().name())
        .uri(req.url())
        .body(())
        .unwrap();
    assert_eq!(built.uri().path(), "/devstoreaccount1/c/file");
}

#[test]
fn request_is_refused_when_http_refuses_the_url() {
    for url in ["", "http://host/a b", "http://host/\u{7f}", "http://[::1/x"] {
        let r = HttpRequest::build(Method::Get, url.to_string(), Vec::new(), AsyncBody::Empty);
        let expected = http::Request::builder()
            .method("GET")
            .uri(url)
            .body(())
            .unwrap_err()
            .to_string();
        assert_eq!(r, Err(expected), "{:?}", url);
    }
}

#[test]
fn request_is_refused_when_http_refuses_a_header() {
    let r = HttpRequest::build(
        Method::Get,
        "http://host/x".to_string(),
        pairs(&[("bad name", "v")]),
        AsyncBody::Empty,
    );
    assert!(r.is_err());
    let r = HttpRequest::build(
        Method::Get,
        "http://host/x".to_string(),
        pairs(&[("name", "line\nbreak")]),
        AsyncBody::Empty,
    );
    assert!(r.is_err());
}

#[test]
fn checked_request_follows_the_verdict() {
    let ok = HttpRequest::checked(
        Method::Head,
        "http://host/x".to_string(),
        Vec::new(),
        AsyncBody::Empty,
        None,
    )
    .unwrap();
    assert_eq!(ok.method(), Method::Head);
    assert_eq!(ok.url(), "http://host/x");
    assert!(ok.headers().is_empty());
    assert_eq!(ok.body(), AsyncBody::Empty);

    let refused = HttpRequest::checked(
        Method::Head,
        "http://host/x".to_string(),
        Vec::new(),
        AsyncBody::Empty,
        Some("invalid uri character".to_string()),
    );
    assert_eq!(refused, Err("invalid uri character".to_string()));
}
