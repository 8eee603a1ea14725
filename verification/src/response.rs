use vstd::prelude::*;

use crate::json::{JsonBody, JsonKind};

verus! {

/// What a Lua handler may return: a plain text, or a table with an optional
/// redirect target and an optional JSON body.
#[derive(Debug, PartialEq)]
pub enum DayaxResponse {
    Plain(String),
    Full(FullDayaxResponse),
}

/// The table form of a handler's return value.
#[derive(Debug, PartialEq)]
pub struct FullDayaxResponse {
    pub redirect: Option<String>,
    pub body: Option<JsonBody>,
}

/// The HTTP response to send, each variant named after the response it stands for.
#[derive(Debug, PartialEq)]
pub enum ResponseAction {
    /// `200 OK` with the text as a `text/plain` body.
    Text(String),
    /// `307 Temporary Redirect` to the target.
    TemporaryRedirect(String),
    /// The default response: `200 OK` with an empty body.
    Default,
    /// `200 OK` with the value as a JSON body.
    Json(serde_json::Value),
    /// `500 Internal Server Error` with the text `Internal Server Error`.
    InternalServerError,
}

/// The response for a table return value: its redirect if it has one;
/// otherwise the default response for a missing or null body, the JSON body
/// for an array or an object, and an internal server error for any other body.
pub open spec fn full_response_action(r: FullDayaxResponse) -> ResponseAction {
    match r.redirect {
        Some(target) => ResponseAction::TemporaryRedirect(target),
        None => match r.body {
            None => ResponseAction::Default,
            Some(body) => match body.kind() {
                JsonKind::Null => ResponseAction::Default,
                JsonKind::Array => ResponseAction::Json(body.value()),
                JsonKind::Object => ResponseAction::Json(body.value()),
                _ => ResponseAction::InternalServerError,
            },
        },
    }
}

/// A character that may stand in a header value: a tab, or any character
/// from the space on except DEL (bytes of non-ASCII characters are all
/// allowed).
pub open spec fn is_header_value_char(c: char) -> bool {
    c == '\t' || (' ' <= c && c != '\u{7f}')
}

/// Whether `s` can be sent as a header value, such as a redirect target.
pub open spec fn valid_header_value(s: Seq<char>) -> bool {
    forall|i: int| 0 <= i < s.len() ==> is_header_value_char(#[trigger] s[i])
}

/// Whether a response can be sent: a redirect target must be a valid header
/// value.
pub open spec fn full_response_sendable(r: FullDayaxResponse) -> bool {
    r.redirect matches Some(target) ==> valid_header_value(target@)
}

/// Whether a handler's return value can be sent as a response.
pub open spec fn response_sendable(r: DayaxResponse) -> bool {
    match r {
        DayaxResponse::Plain(_) => true,
        DayaxResponse::Full(full) => full_response_sendable(full),
    }
}

/// Whether `s` can be sent as a header value.
pub fn is_valid_header_value(s: &str) -> (valid: bool)
    ensures
        valid == valid_header_value(s@),
{
    let n = s.unicode_len();
    let mut i: usize = 0;
    while i < n
        invariant
            n == s@.len(),
            i <= n,
            forall|j: int| 0 <= j < i ==> is_header_value_char(#[trigger] s@[j]),
        decreases n - i,
    {
        let c = s.get_char(i);
        if !(c == '\t' || (' ' <= c && c != '\u{7f}')) {
            assert(!is_header_value_char(s@[i as int]));
            return false;
        }
        i = i + 1;
    }
    true
}

/// The response for any return value: the text for a plain one.
pub open spec fn response_action(r: DayaxResponse) -> ResponseAction {
    match r {
        DayaxResponse::Plain(text) => ResponseAction::Text(text),
        DayaxResponse::Full(full) => full_response_action(full),
    }
}

impl FullDayaxResponse {
    /// Chooses the response for a table return value.
    pub fn into_response(self) -> (action: ResponseAction)
        requires
            full_response_sendable(self),
        ensures
            action == full_response_action(self),
    {
        match self.redirect {
            Some(target) => ResponseAction::TemporaryRedirect(target),
            None => match self.body {
                None => ResponseAction::Default,
                Some(body) => match body.json_kind() {
                    JsonKind::Null => ResponseAction::Default,
                    JsonKind::Array => ResponseAction::Json(body.into_value()),
                    JsonKind::Object => ResponseAction::Json(body.into_value()),
                    _ => ResponseAction::InternalServerError,
                },
            },
        }
    }
}

impl DayaxResponse {
    /// Whether the return value can be sent as a response.
    pub fn is_sendable(&self) -> (sendable: bool)
        ensures
            sendable == response_sendable(*self),
    {
        match self {
            DayaxResponse::Plain(_) => true,
            DayaxResponse::Full(full) => match &full.redirect {
                Some(target) => is_valid_header_value(target.as_str()),
                None => true,
            },
        }
    }

    /// Chooses the response for a handler's return value.
    pub fn into_response(self) -> (action: ResponseAction)
        requires
            response_sendable(self),
        ensures
            action == response_action(self),
    {
        match self {
            DayaxResponse::Plain(text) => ResponseAction::Text(text),
            DayaxResponse::Full(full) => full.into_response(),
        }
    }
}

/// A redirect target takes precedence over any body: the response is the
/// redirect whatever the body holds.
pub proof fn lemma_redirect_wins(target: String, body: Option<JsonBody>)
    ensures
        full_response_action(FullDayaxResponse { redirect: Some(target), body })
            == ResponseAction::TemporaryRedirect(target),
{
}

/// Without a redirect, a JSON body is sent exactly when it is an array or an
/// object, and it is sent unchanged.
pub proof fn lemma_json_body_sent_unchanged(body: JsonBody)
    ensures
        (full_response_action(FullDayaxResponse { redirect: None, body: Some(body) }) matches ResponseAction::Json(v)
            && v == body.value()) <==> (body.kind() == JsonKind::Array || body.kind()
            == JsonKind::Object),
{
}


/// A plain text return value is sent as exactly that text, whatever
/// characters it holds, and it can always be sent.
pub proof fn lemma_plain_text_sent_unchanged(text: String)
    ensures
        response_action(DayaxResponse::Plain(text)) == ResponseAction::Text(text),
        response_sendable(DayaxResponse::Plain(text)),
{
}

/// A header value is valid exactly when each of its characters is a tab, a
/// visible ASCII character or the space (`' '` to `'~'`), or a non-ASCII
/// character; only the other control characters and DEL make it invalid.
pub proof fn lemma_header_value_chars(s: Seq<char>)
    ensures
        valid_header_value(s) <==> forall|i: int|
            0 <= i < s.len() ==> (#[trigger] s[i] == '\t' || (' ' <= s[i] && s[i] <= '~') || s[i]
                >= '\u{80}'),
{
}

/// A redirect to a target of tabs and visible ASCII characters (`' '` to
/// `'~'`, `%` included) can be sent, whatever the body.
pub proof fn lemma_visible_redirect_sendable(target: String, body: Option<JsonBody>)
    requires
        forall|i: int|
            0 <= i < target@.len() ==> (#[trigger] target@[i] == '\t' || (' ' <= target@[i]
                && target@[i] <= '~')),
    ensures
        full_response_sendable(FullDayaxResponse { redirect: Some(target), body }),
{
}

/// Without a redirect, the default response answers exactly a missing or
/// null body, and an internal server error exactly a boolean, number or
/// string body.
pub proof fn lemma_bodies_without_redirect(body: Option<JsonBody>)
    ensures
        (full_response_action(FullDayaxResponse { redirect: None, body }) is Default) <==> (
        body is None || body.unwrap().kind() == JsonKind::Null),
        (full_response_action(FullDayaxResponse { redirect: None, body }) is InternalServerError)
            <==> (body is Some && (body.unwrap().kind() == JsonKind::Bool || body.unwrap().kind()
            == JsonKind::Number || body.unwrap().kind() == JsonKind::String)),
        !(full_response_action(FullDayaxResponse { redirect: None, body }) is TemporaryRedirect),
        !(full_response_action(FullDayaxResponse { redirect: None, body }) is Text),
{
}

} // verus!
