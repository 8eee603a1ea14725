use vstd::prelude::*;

use crate::map::{map_get, StringMap};
use crate::media::{is_plain_media_type, mime_parse, MediaType};
use crate::text::{
    ascii_lowercase, eq_ignore_ascii_case, header_text, header_value_text,
    lemma_eq_ignore_case_lowercase,
};

verus! {

/// How the body of a request is read: as JSON, as a URL-encoded form, or as text.
#[derive(Clone, Copy, Debug, PartialEq, Eq, Structural)]
pub enum BodyKind {
    Json,
    Form,
    Text,
}

/// A request as the Lua handlers see it.
#[derive(Debug)]
pub struct DayaxRequest {
    pub method: String,
    pub search_params: StringMap,
    pub uri: String,
    pub path: StringMap,
    pub headers: StringMap,
    pub body: serde_json::Value,
}

/// The parts of a request that are read before its body: its method, query
/// parameters, URI, path parameters and header map.
#[derive(Debug)]
pub struct RequestHead {
    pub method: String,
    pub search_params: StringMap,
    pub uri: String,
    pub path: StringMap,
    pub headers: StringMap,
}

/// The header map of a request whose headers came in the order of `pairs`
/// (name, raw value): a later header of a name replaces an earlier one, and
/// each value is read as `header_text`.
pub open spec fn header_map(pairs: Seq<(String, Vec<u8>)>) -> Map<Seq<char>, Seq<char>>
    decreases pairs.len(),
{
    if pairs.len() == 0 {
        Map::empty()
    } else {
        header_map(pairs.drop_last()).insert(pairs.last().0@, header_text(pairs.last().1@))
    }
}

/// The body kind for a parsed media type with this canonical text: JSON for
/// `application/json`, a form for `application/x-www-form-urlencoded` (both
/// up to the case of ASCII letters, as mime compares them), text otherwise.
pub open spec fn media_body_kind(text: Seq<char>) -> BodyKind {
    if eq_ignore_ascii_case(text, "application/json"@) {
        BodyKind::Json
    } else if eq_ignore_ascii_case(text, "application/x-www-form-urlencoded"@) {
        BodyKind::Form
    } else {
        BodyKind::Text
    }
}

/// The body kind that a request with this `Content-Type` value (if any) gets:
/// the kind for the media type that mime parses from it, and text where the
/// request has none or mime refuses it.
pub open spec fn body_kind_for(content_type: Option<Seq<char>>) -> BodyKind {
    match content_type {
        Some(ct) => match mime_parse(ct) {
            Some(text) => media_body_kind(text),
            None => BodyKind::Text,
        },
        None => BodyKind::Text,
    }
}

/// Builds the header map of a request from its headers in order, as
/// (lower-case name, raw value) pairs: the last value of a name wins, and a
/// value that is not visible ASCII reads as the empty text.
pub fn collect_headers(pairs: &Vec<(String, Vec<u8>)>) -> (headers: StringMap)
    ensures
        headers@ == header_map(pairs@),
{
    let mut map = StringMap::new();
    let n = pairs.len();
    let mut i: usize = 0;
    assert(pairs@.take(0) =~= Seq::<(String, Vec<u8>)>::empty());
    while i < n
        invariant
            n == pairs@.len(),
            i <= n,
            map@ == header_map(pairs@.take(i as int)),
        decreases n - i,
    {
        let name = pairs[i].0.clone();
        let text = header_value_text(pairs[i].1.as_slice());
        assert(pairs@.take(i + 1).drop_last() =~= pairs@.take(i as int));
        map.insert(name, text);
        i = i + 1;
    }
    assert(pairs@.take(n as int) =~= pairs@);
    map
}

/// Decides how a body is read once its media type is parsed.
pub fn media_type_body_kind(media_type: &MediaType) -> (kind: BodyKind)
    ensures
        kind == media_body_kind(media_type.text()),
{
    if media_type.is_json() {
        BodyKind::Json
    } else if media_type.is_form() {
        BodyKind::Form
    } else {
        BodyKind::Text
    }
}

/// Decides how a request body is read from its `Content-Type` value (if any).
pub fn body_kind(content_type: Option<&str>) -> (kind: BodyKind)
    ensures
        kind == body_kind_for(
            match content_type {
                Some(ct) => Some(ct@),
                None => None,
            },
        ),
        content_type matches Some(ct) ==> (is_plain_media_type(ct@) ==> kind == media_body_kind(
            ascii_lowercase(ct@),
        )),
{
    match content_type {
        None => BodyKind::Text,
        Some(ct) => match MediaType::parse(ct) {
            None => BodyKind::Text,
            Some(m) => media_type_body_kind(&m),
        },
    }
}

/// Decides how the body of a request with these headers is read, from the
/// value of its `content-type` header.
pub fn request_body_kind(headers: &StringMap) -> (kind: BodyKind)
    ensures
        kind == body_kind_for(map_get(headers@, "content-type"@)),
{
    let name = String::from_str("content-type");
    match headers.get(&name) {
        Some(value) => body_kind(Some(value.as_str())),
        None => body_kind(None),
    }
}

impl RequestHead {
    /// Gathers the parts of a request read before its body; the headers come
    /// in order as (lower-case name, raw value) pairs and are collected as
    /// `collect_headers` does.
    pub fn new(
        method: String,
        search_params: StringMap,
        uri: String,
        path: StringMap,
        header_pairs: &Vec<(String, Vec<u8>)>,
    ) -> (head: RequestHead)
        ensures
            head.method == method,
            head.search_params == search_params,
            head.uri == uri,
            head.path == path,
            head.headers@ == header_map(header_pairs@),
    {
        let headers = collect_headers(header_pairs);
        RequestHead { method, search_params, uri, path, headers }
    }

    /// Decides how the body of the request is read: by the last
    /// `content-type` header of the request.
    pub fn body_kind(&self) -> (kind: BodyKind)
        ensures
            kind == body_kind_for(map_get(self.headers@, "content-type"@)),
    {
        request_body_kind(&self.headers)
    }

    /// Completes the request with the body read as `body_kind` chose.
    pub fn with_body(self, body: serde_json::Value) -> (request: DayaxRequest)
        ensures
            request.method == self.method,
            request.search_params == self.search_params,
            request.uri == self.uri,
            request.path == self.path,
            request.headers == self.headers,
            request.body == body,
    {
        DayaxRequest {
            method: self.method,
            search_params: self.search_params,
            uri: self.uri,
            path: self.path,
            headers: self.headers,
            body,
        }
    }
}


/// A parsed media type selects a JSON body exactly when its text made lower
/// case is `application/json`, and a form body exactly when it is
/// `application/x-www-form-urlencoded`; any other media type selects text.
pub proof fn lemma_media_body_kind(text: Seq<char>)
    ensures
        (media_body_kind(text) == BodyKind::Json) <==> ascii_lowercase(text) == "application/json"@,
        (media_body_kind(text) == BodyKind::Form) <==> ascii_lowercase(text)
            == "application/x-www-form-urlencoded"@,
{
    reveal_strlit("application/json");
    reveal_strlit("application/x-www-form-urlencoded");
    lemma_eq_ignore_case_lowercase(text, "application/json"@);
    lemma_eq_ignore_case_lowercase(text, "application/x-www-form-urlencoded"@);
    assert("application/json"@ != "application/x-www-form-urlencoded"@) by {
        assert("application/json"@.len() != "application/x-www-form-urlencoded"@.len());
    }
}

} // verus!
