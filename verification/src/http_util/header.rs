//! The headers of a response, as pairs of name and value. Names are in
//! lower case, as HTTP libraries hand them out.

use vstd::prelude::*;

use crate::http_util::date::parse_http_date;
use crate::http_util::date::parsed_http_date;
use crate::http_util::number::parse_u64;
use crate::http_util::number::parsed_u64;
use crate::http_util::request::headers_view;
use crate::text::str_eq;

verus! {

/// The value of the first header called `name`, if there is one.
pub open spec fn header_value(headers: Seq<(Seq<char>, Seq<char>)>, name: Seq<char>) -> Option<
    Seq<char>,
>
    decreases headers.len(),
{
    if headers.len() == 0 {
        None
    } else if headers[0].0 == name {
        Some(headers[0].1)
    } else {
        header_value(headers.drop_first(), name)
    }
}

/// A header that none of the first `n` headers is called has the value that
/// it has among the rest.
proof fn lemma_header_skip(headers: Seq<(Seq<char>, Seq<char>)>, name: Seq<char>, n: int)
    requires
        0 <= n <= headers.len(),
        forall|i: int| 0 <= i < n ==> headers[i].0 != name,
    ensures
        header_value(headers, name) == header_value(headers.skip(n), name),
    decreases n,
{
    if n > 0 {
        assert(headers.drop_first().skip(n - 1) =~= headers.skip(n));
        lemma_header_skip(headers.drop_first(), name, n - 1);
    } else {
        assert(headers.skip(0) =~= headers);
    }
}

/// Looks up the value of the first header called `name`.
pub fn find_header<'a>(headers: &'a Vec<(String, String)>, name: &str) -> (r: Option<&'a str>)
    ensures
        r is Some == header_value(headers_view(headers@), name@) is Some,
        r is Some ==> r->Some_0@ == header_value(headers_view(headers@), name@)->Some_0,
{
    let ghost all = headers_view(headers@);
    let mut i: usize = 0;
    while i < headers.len()
        invariant
            i <= headers.len(),
            all == headers_view(headers@),
            forall|k: int| 0 <= k < i ==> all[k].0 != name@,
        decreases headers.len() - i,
    {
        let pair = &headers[i];
        assert(all[i as int] == (pair.0@, pair.1@));
        if str_eq(pair.0.as_str(), name) {
            proof {
                lemma_header_skip(all, name@, i as int);
                assert(all.skip(i as int)[0] == all[i as int]);
            }
            return Some(pair.1.as_str());
        }
        i = i + 1;
    }
    proof {
        lemma_header_skip(all, name@, all.len() as int);
        assert(all.skip(all.len() as int) =~= Seq::empty());
    }
    None
}

/// What the `content-length` header says: no header, a length, or a value
/// that is no length.
pub open spec fn content_length_of(headers: Seq<(Seq<char>, Seq<char>)>) -> Result<
    Option<u64>,
    Seq<char>,
> {
    match header_value(headers, "content-length"@) {
        None => Ok(None),
        Some(v) => match parsed_u64(v) {
            Some(n) => Ok(Some(n)),
            None => Err("invalid content-length: "@ + v),
        },
    }
}

/// Parses the `content-length` header.
pub fn parse_content_length(headers: &Vec<(String, String)>) -> (r: Result<Option<u64>, String>)
    ensures
        match content_length_of(headers_view(headers@)) {
            Ok(n) => r is Ok && r->Ok_0 == n,
            Err(reason) => r is Err && r->Err_0@ == reason,
        },
{
    match find_header(headers, "content-length") {
        None => Ok(None),
        Some(v) => match parse_u64(v) {
            Some(n) => Ok(Some(n)),
            None => Err("invalid content-length: ".to_owned().concat(v)),
        },
    }
}

/// The `etag` header, as the service wrote it.
pub fn parse_etag<'a>(headers: &'a Vec<(String, String)>) -> (r: Option<&'a str>)
    ensures
        r is Some == header_value(headers_view(headers@), "etag"@) is Some,
        r is Some ==> r->Some_0@ == header_value(headers_view(headers@), "etag"@)->Some_0,
{
    find_header(headers, "etag")
}

/// What the `last-modified` header says: no header, a point in time in
/// seconds since the start of 1970, or a value that is no date.
pub open spec fn last_modified_of(headers: Seq<(Seq<char>, Seq<char>)>) -> Result<
    Option<i64>,
    Seq<char>,
> {
    match header_value(headers, "last-modified"@) {
        None => Ok(None),
        Some(v) => match parsed_http_date(v) {
            Some(t) => Ok(Some(t)),
            None => Err("invalid last-modified: "@ + v),
        },
    }
}

/// Parses the `last-modified` header.
pub fn parse_last_modified(headers: &Vec<(String, String)>) -> (r: Result<Option<i64>, String>)
    ensures
        match last_modified_of(headers_view(headers@)) {
            Ok(t) => r is Ok && r->Ok_0 == t,
            Err(reason) => r is Err && r->Err_0@ == reason,
        },
{
    match find_header(headers, "last-modified") {
        None => Ok(None),
        Some(v) => match parse_http_date(v) {
            Some(t) => Ok(Some(t)),
            None => Err("invalid last-modified: ".to_owned().concat(v)),
        },
    }
}

} // verus!
