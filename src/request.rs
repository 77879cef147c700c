//! Building a request from what the user typed.
use vstd::prelude::*;
use crate::headers::{headers_of, pairs_view, parse_headers};
use crate::method::{method_of, Method};
use crate::text::{is_blank, lemma_trim_blank, trim, trim_str};

verus! {

/// Why a request produced no response.
#[derive(Clone, Debug, PartialEq, Eq)]
pub enum RequestError {
    /// The method is not one of the supported names; nothing was sent.
    UnsupportedMethod,
    /// The transport failed (name lookup, connection, TLS, timeout).
    Transport(String),
    /// The status line arrived but the body could not be read.
    BodyRead(String),
}

/// The text that a caller is shown for an error.
pub open spec fn error_message(e: RequestError) -> Seq<char> {
    match e {
        RequestError::UnsupportedMethod => "Unsupported HTTP method"@,
        RequestError::Transport(m) => m@,
        RequestError::BodyRead(m) => m@,
    }
}

impl RequestError {
    /// The text that a caller is shown: a fixed sentence for an unsupported
    /// method, the transport's own words otherwise.
    pub fn message(&self) -> (r: String)
        ensures
            r@ == error_message(*self),
    {
        match self {
            RequestError::UnsupportedMethod => String::from_str("Unsupported HTTP method"),
            RequestError::Transport(m) => m.clone(),
            RequestError::BodyRead(m) => m.clone(),
        }
    }
}

/// A validated request, ready for a transport.
#[derive(Clone, Debug, PartialEq, Eq)]
pub struct RequestSpec {
    pub method: Method,
    /// Passed to the transport as it was given.
    pub url: String,
    /// In line order; names may repeat.
    pub headers: Vec<(String, String)>,
    /// Sent verbatim when present.
    pub body: Option<String>,
}

/// The view of an optional string.
pub open spec fn opt_text(o: Option<String>) -> Option<Seq<char>> {
    match o {
        Some(s) => Some(s@),
        None => None,
    }
}

/// The body that is sent for a given body: none where it is absent or blank
/// after trimming, else the body itself, unchanged.
pub open spec fn attached_body(body: Option<Seq<char>>) -> Option<Seq<char>> {
    match body {
        Some(b) => if trim(b).len() > 0 {
            Some(b)
        } else {
            None
        },
        None => None,
    }
}

/// A body of whitespace alone is sent exactly as no body is.
pub proof fn lemma_blank_body_is_absent(b: Seq<char>)
    requires
        is_blank(b),
    ensures
        attached_body(Some(b)) == attached_body(None),
{
    lemma_trim_blank(b);
}

/// Decides which body, if any, goes out with a request.
pub fn attach_body(body: Option<String>) -> (r: Option<String>)
    ensures
        opt_text(r) == attached_body(opt_text(body)),
{
    match body {
        Some(b) => {
            let t = trim_str(b.as_str());
            if t.as_str().is_empty() {
                None
            } else {
                Some(b)
            }
        },
        None => None,
    }
}

/// Validates the method, reads the header block and decides the body.
/// Fails with `UnsupportedMethod`, before anything is sent, exactly when the
/// method is not a supported name.
pub fn build_request(method: &str, url: String, headers: &str, body: Option<String>) -> (r: Result<
    RequestSpec,
    RequestError,
>)
    ensures
        r is Err <==> method_of(method@) is None,
        r matches Err(e) ==> e == RequestError::UnsupportedMethod,
        r matches Ok(req) ==> {
            &&& method_of(method@) == Some(req.method)
            &&& req.url == url
            &&& pairs_view(req.headers@) == headers_of(headers@)
            &&& opt_text(req.body) == attached_body(opt_text(body))
        },
{
    match Method::parse(method) {
        Some(m) => {
            let hs = parse_headers(headers);
            let b = attach_body(body);
            Ok(RequestSpec { method: m, url, headers: hs, body: b })
        },
        None => Err(RequestError::UnsupportedMethod),
    }
}

} // verus!
