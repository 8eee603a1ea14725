use vstd::prelude::*;

use crate::text::{ascii_lowercase, eq_ignore_ascii_case};

verus! {

/// The media type of the `mime` crate, held opaque.
#[verifier::external_type_specification]
#[verifier::external_body]
pub struct ExMime(mime::Mime);

/// A media type parsed by `mime`, with its canonical text (`Mime::as_ref`).
/// Values are only made by `parse_media_type`, which keeps `text` equal to
/// the text of `mime`.
pub struct MediaType {
    text: String,
    mime: mime::Mime,
}

impl MediaType {
    /// The canonical text of the media type.
    pub closed spec fn text(&self) -> Seq<char> {
        self.text@
    }
}

/// The canonical text of the `Mime` that `<mime::Mime as FromStr>::from_str`
/// makes of `s`, or `None` where it refuses `s`.
pub uninterp spec fn mime_parse(s: Seq<char>) -> Option<Seq<char>>;

/// A character that `mime` takes as part of a type or subtype name, of the
/// plainest kind: an ASCII letter or digit, `-` or `.`.
pub open spec fn is_plain_name_char(c: char) -> bool {
    ('a' <= c && c <= 'z') || ('A' <= c && c <= 'Z') || ('0' <= c && c <= '9') || c == '-' || c
        == '.'
}

/// `s` is `type/subtype` with both names non-empty and made only of plain
/// name characters, without parameters.
pub open spec fn is_plain_media_type(s: Seq<char>) -> bool {
    exists|i: int|
        0 < i < s.len() - 1 && s[i] == '/' && (forall|j: int|
            0 <= j < s.len() && j != i ==> is_plain_name_char(#[trigger] s[j]))
}

/// Calls `<mime::Mime as FromStr>::from_str` on `s`. Claimed: the result is
/// what `mime_parse` names for `s` (its text, or that the parse failed); and,
/// as the parser's source shows, a plain `type/subtype` is accepted and its
/// text is `s` made lower case.
#[verifier::external_body]
pub(crate) fn parse_media_type(s: &str) -> (parsed: Option<MediaType>)
    ensures
        match parsed {
            Some(m) => mime_parse(s@) == Some(m.text()) && (is_plain_media_type(s@) ==> m.text()
                == ascii_lowercase(s@)),
            None => mime_parse(s@) is None && !is_plain_media_type(s@),
        },
{
    s.parse::<mime::Mime>().ok().map(|m| MediaType { text: m.as_ref().to_string(), mime: m })
}

/// Calls `mime::APPLICATION_JSON == *m` (mime's `PartialEq`). Claimed, as
/// the source shows: the constant has no parameters and is compared with
/// `eq_ignore_ascii_case` to the text of `m`, so the result is whether that
/// text is `application/json` up to the case of ASCII letters.
#[verifier::external_body]
pub(crate) fn is_application_json(m: &MediaType) -> (is_json: bool)
    ensures
        is_json == eq_ignore_ascii_case(m.text(), "application/json"@),
{
    mime::APPLICATION_JSON == m.mime
}

/// Calls `*m == mime::APPLICATION_WWW_FORM_URLENCODED` (mime's `PartialEq`).
/// Claimed, as the source shows: a parsed media type with parameters never
/// equals this constant (which has none and holds no `=`), and one without is
/// compared with `eq_ignore_ascii_case`, so the result is whether the text of
/// `m` is `application/x-www-form-urlencoded` up to the case of ASCII letters.
#[verifier::external_body]
pub(crate) fn is_application_www_form_urlencoded(m: &MediaType) -> (is_form: bool)
    ensures
        is_form == eq_ignore_ascii_case(m.text(), "application/x-www-form-urlencoded"@),
{
    m.mime == mime::APPLICATION_WWW_FORM_URLENCODED
}

impl MediaType {
    /// Parses a `Content-Type` value with `mime`.
    pub fn parse(s: &str) -> (parsed: Option<MediaType>)
        ensures
            match parsed {
                Some(m) => mime_parse(s@) == Some(m.text()),
                None => mime_parse(s@) is None,
            },
            is_plain_media_type(s@) ==> (parsed matches Some(m) && m.text() == ascii_lowercase(
                s@,
            )),
    {
        parse_media_type(s)
    }

    /// Whether the media type is `application/json`, compared as mime does.
    pub fn is_json(&self) -> (is_json: bool)
        ensures
            is_json == eq_ignore_ascii_case(self.text(), "application/json"@),
    {
        is_application_json(self)
    }

    /// Whether the media type is `application/x-www-form-urlencoded`,
    /// compared as mime does.
    pub fn is_form(&self) -> (is_form: bool)
        ensures
            is_form == eq_ignore_ascii_case(self.text(), "application/x-www-form-urlencoded"@),
    {
        is_application_www_form_urlencoded(self)
    }
}

} // verus!
