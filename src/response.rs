//! Normalizing a received response for display.
use vstd::prelude::*;
use crate::headers::{
    flatten, header_line, headers_of, is_plain_header, lemma_header_block_round_trip, HeaderSpec,
};
use crate::request::{opt_text, RequestError};

verus! {

#[verifier::external_type_specification]
#[verifier::external_body]
pub struct ExJsonValue(serde_json::Value);

#[verifier::external_type_specification]
#[verifier::external_body]
pub struct ExJsonError(serde_json::Error);

#[verifier::external_type_specification]
#[verifier::external_body]
pub struct ExFromUtf8Error(std::string::FromUtf8Error);

/// Whether serde_json reads `s` as one JSON value.
pub uninterp spec fn json_accepts(s: Seq<char>) -> bool;

/// The reason phrase that the http crate lists for a status code.
pub uninterp spec fn reason_of(code: u16) -> Option<Seq<char>>;

/// Relies on `serde_json::from_str::<Value>`: it succeeds exactly on the
/// texts that it reads as JSON, and depends on the text alone.
#[verifier::external_body]
fn parse_json(text: &str) -> (r: Result<serde_json::Value, serde_json::Error>)
    ensures
        r is Ok <==> json_accepts(text@),
{
    serde_json::from_str::<serde_json::Value>(text)
}

/// Relies on `StatusCode::from_u16` and `StatusCode::canonical_reason`
/// (reqwest's re-export of the http crate): the phrase of the code's table
/// entry, depending on the code alone.
#[verifier::external_body]
fn canonical_reason(code: u16) -> (r: Option<String>)
    ensures
        opt_text(r) == reason_of(code),
{
    match reqwest::StatusCode::from_u16(code) {
        Ok(s) => s.canonical_reason().map(|p| p.to_string()),
        Err(_) => None,
    }
}

/// The characters of ASCII bytes, each the character of its own code.
pub open spec fn ascii_chars(b: Seq<u8>) -> Seq<char> {
    b.map_values(|x: u8| x as char)
}

/// Relies on `String::from_utf8`: ASCII bytes are valid UTF-8, and decode to
/// the characters of their codes.
#[verifier::external_body]
fn string_from_ascii(b: Vec<u8>) -> (r: Result<String, std::string::FromUtf8Error>)
    requires
        forall|i: int| 0 <= i < b@.len() ==> b@[i] < 128,
    ensures
        r is Ok,
        r matches Ok(s) ==> s@ == ascii_chars(b@),
{
    String::from_utf8(b)
}

/// A byte that a header value may show as text: visible ASCII or a tab.
pub open spec fn is_visible(b: u8) -> bool {
    (32 <= b && b < 127) || b == 9
}

/// How a header value is shown: its characters where every byte is visible
/// ASCII or a tab, and an empty string otherwise.
pub open spec fn value_text(b: Seq<u8>) -> Seq<char> {
    if forall|i: int| 0 <= i < b.len() ==> is_visible(#[trigger] b[i]) {
        ascii_chars(b)
    } else {
        Seq::empty()
    }
}

/// The headers of a response as the contracts see them, each value shown as
/// `value_text` shows it.
pub open spec fn shown_headers(hs: Seq<(String, Vec<u8>)>) -> Seq<HeaderSpec> {
    hs.map_values(|h: (String, Vec<u8>)| (h.0@, value_text(h.1@)))
}

/// The status phrase shown for a reason phrase, if the code has one.
pub open spec fn status_text_of(reason: Option<Seq<char>>) -> Seq<char> {
    match reason {
        Some(p) => p,
        None => "Unknown"@,
    }
}

/// The text of a header value: empty where a byte is not visible ASCII or a
/// tab, so that the header's line is kept either way.
pub fn header_value_text(b: &Vec<u8>) -> (r: String)
    ensures
        r@ == value_text(b@),
{
    let mut i: usize = 0;
    while i < b.len()
        invariant
            i <= b@.len(),
            forall|j: int| 0 <= j < i ==> is_visible(#[trigger] b@[j]),
        decreases b@.len() - i,
    {
        if !((32 <= b[i] && b[i] < 127) || b[i] == 9) {
            return String::new();
        }
        i = i + 1;
    }
    match string_from_ascii(b.clone()) {
        Ok(s) => s,
        Err(_) => String::new(),
    }
}

/// The status phrase for an optional reason phrase: the phrase, or `Unknown`.
pub fn status_text(reason: Option<String>) -> (r: String)
    ensures
        r@ == status_text_of(opt_text(reason)),
{
    match reason {
        Some(p) => p,
        None => String::from_str("Unknown"),
    }
}

/// The status phrase of a code: its canonical reason, or `Unknown` where the
/// code has none.
pub fn status_phrase(code: u16) -> (r: String)
    ensures
        r@ == status_text_of(reason_of(code)),
{
    status_text(canonical_reason(code))
}

/// Renders received headers as a block: `name: value` and a line break for
/// each, in the order given; a value that is not text shows as empty.
pub fn render_headers(headers: &Vec<(String, Vec<u8>)>) -> (r: String)
    ensures
        r@ == flatten(shown_headers(headers@)),
{
    let mut out = String::new();
    let mut i: usize = 0;
    while i < headers.len()
        invariant
            i <= headers@.len(),
            out@ == flatten(shown_headers(headers@.take(i as int))),
        decreases headers@.len() - i,
    {
        let ghost hs = shown_headers(headers@.take(i + 1));
        assert(hs.drop_last() =~= shown_headers(headers@.take(i as int)));
        let value = header_value_text(&headers[i].1);
        proof {
            reveal_strlit(": ");
            reveal_strlit("\n");
        }
        let ghost before = out@;
        out.append(headers[i].0.as_str());
        out.append(": ");
        out.append(value.as_str());
        out.append("\n");
        assert(out@ =~= before + header_line(headers@[i as int].0@, value@));
        i = i + 1;
    }
    assert(headers@.take(i as int) =~= headers@);
    out
}

/// The header block rendered from a response reads back as the response's
/// headers, and rendering those again gives the same block, wherever each
/// name holds no `:` and neither a name nor a shown value holds a line break
/// or has whitespace at its ends.
pub proof fn lemma_rendered_headers_round_trip(hs: Seq<(String, Vec<u8>)>)
    requires
        forall|i: int| 0 <= i < hs.len() ==> is_plain_header(#[trigger] shown_headers(hs)[i]),
    ensures
        headers_of(flatten(shown_headers(hs))) == shown_headers(hs),
        flatten(headers_of(flatten(shown_headers(hs)))) == flatten(shown_headers(hs)),
{
    lemma_header_block_round_trip(shown_headers(hs));
}

/// The body of a response: a parsed JSON value, or the raw text.
#[derive(Debug, PartialEq)]
pub enum ResponseBody {
    Json(serde_json::Value),
    Text(String),
}

/// Picks the body from the outcome of parsing its text: the value where the
/// parse succeeded, the whole text where it failed.
pub fn body_from_parse(
    text: String,
    parsed: Result<serde_json::Value, serde_json::Error>,
) -> (r: ResponseBody)
    ensures
        parsed matches Ok(v) ==> r == ResponseBody::Json(v),
        parsed is Err ==> r == ResponseBody::Text(text),
{
    match parsed {
        Ok(v) => ResponseBody::Json(v),
        Err(_) => ResponseBody::Text(text),
    }
}

/// Decodes a response body: JSON where the whole text parses as JSON, and
/// the text itself otherwise.
pub fn decode_body(text: String) -> (r: ResponseBody)
    ensures
        r is Json <==> json_accepts(text@),
        !json_accepts(text@) ==> r == ResponseBody::Text(text),
{
    let parsed = parse_json(text.as_str());
    body_from_parse(text, parsed)
}

/// A response made ready for display.
#[derive(Debug, PartialEq)]
pub struct ResponseResult {
    pub status: u16,
    pub status_text: String,
    /// One `name: value` line per header, each ending in a line break.
    pub headers: String,
    pub body: ResponseBody,
}

/// Normalizes a response whose body was read: the code, its phrase, the
/// header block and the decoded body.
pub fn normalize_response(status: u16, headers: &Vec<(String, Vec<u8>)>, text: String) -> (r:
    ResponseResult)
    ensures
        r.status == status,
        r.status_text@ == status_text_of(reason_of(status)),
        r.headers@ == flatten(shown_headers(headers@)),
        r.body is Json <==> json_accepts(text@),
        !json_accepts(text@) ==> r.body == ResponseBody::Text(text),
{
    let status_text = status_phrase(status);
    let rendered = render_headers(headers);
    let body = decode_body(text);
    ResponseResult { status, status_text, headers: rendered, body }
}

/// Finishes a response from the outcome of reading its body: a body that
/// could not be read fails the whole request with `BodyRead`, and no partial
/// result is returned.
pub fn finish_response(
    status: u16,
    headers: &Vec<(String, Vec<u8>)>,
    body: Result<String, String>,
) -> (r: Result<ResponseResult, RequestError>)
    ensures
        body matches Err(e) ==> r == Err::<ResponseResult, RequestError>(
            RequestError::BodyRead(e),
        ),
        body matches Ok(text) ==> r matches Ok(res) && {
            &&& res.status == status
            &&& res.status_text@ == status_text_of(reason_of(status))
            &&& res.headers@ == flatten(shown_headers(headers@))
            &&& (res.body is Json <==> json_accepts(text@))
            &&& (!json_accepts(text@) ==> res.body == ResponseBody::Text(text))
        },
{
    match body {
        Ok(text) => Ok(normalize_response(status, headers, text)),
        Err(e) => Err(RequestError::BodyRead(e)),
    }
}

} // verus!
