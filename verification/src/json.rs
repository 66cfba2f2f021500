//! JSON, URL and node-record syntax, as decided by `serde_json`, `url` and
//! `discv5`.
//!
//! The outcomes of those parsers are given names here; the functions of this
//! module state what they return over those names.

use vstd::prelude::*;

verus! {

/// `serde_json::Value`, carried through as an opaque value.
#[verifier::external_type_specification]
#[verifier::external_body]
pub struct ExJsonValue(serde_json::Value);

/// `serde_json::Error`, carried through as an opaque value.
#[verifier::external_type_specification]
#[verifier::external_body]
pub struct ExJsonError(serde_json::Error);

/// `url::ParseError`, carried through as an opaque value.
#[verifier::external_type_specification]
#[verifier::external_body]
pub struct ExUrlParseError(url::ParseError);

/// What `serde_json::from_str` makes of a text: the document, or why the
/// text is not one.
pub uninterp spec fn json_parsed(text: Seq<char>) -> Result<serde_json::Value, serde_json::Error>;

/// The member that `serde_json::Value::get` finds under `key`, if any.
pub uninterp spec fn json_member(doc: serde_json::Value, key: Seq<char>) -> Option<
    serde_json::Value,
>;

/// The text of a document that is a string: `serde_json::Value::as_str`.
pub uninterp spec fn json_text(doc: serde_json::Value) -> Option<Seq<char>>;

/// The number of a document that is an integer in the range of `u64`:
/// `serde_json::Value::as_u64`.
pub uninterp spec fn json_u64(doc: serde_json::Value) -> Option<u64>;

/// The message that a `serde_json::Error` displays.
pub uninterp spec fn json_error_message(e: serde_json::Error) -> Seq<char>;

/// The JSON document that is the string `text`: `serde_json::Value::String`.
pub uninterp spec fn json_string(text: Seq<char>) -> serde_json::Value;

/// The compact text that a `serde_json::Value` displays.
pub uninterp spec fn json_rendered(doc: serde_json::Value) -> Seq<char>;

/// The message with which a text is refused as a node record by the
/// `FromStr` of `discv5::enr::Enr`, if it is refused.
pub uninterp spec fn enr_rejection(text: Seq<char>) -> Option<Seq<char>>;

/// Why `url::Url::parse` rejects a text, if it does.
pub uninterp spec fn url_rejection(text: Seq<char>) -> Option<url::ParseError>;

/// The message that a `url::ParseError` displays.
pub uninterp spec fn url_error_message(e: url::ParseError) -> Seq<char>;

/// Calls `serde_json::from_str` for a `serde_json::Value`. The result is a
/// function of the text alone and is known only by its name.
#[verifier::external_body]
pub(crate) fn parse_json(text: &str) -> (r: Result<serde_json::Value, serde_json::Error>)
    ensures
        r == json_parsed(text@),
{
    serde_json::from_str::<serde_json::Value>(text)
}

/// Calls `serde_json::Value::get` with a string key and hands out a copy of
/// the member found, if any.
#[verifier::external_body]
pub(crate) fn value_member(doc: &serde_json::Value, key: &str) -> (r: Option<serde_json::Value>)
    ensures
        r == json_member(*doc, key@),
{
    doc.get(key).cloned()
}

/// Calls `serde_json::Value::as_str`: the text, if the document is a string.
#[verifier::external_body]
pub(crate) fn value_text(doc: &serde_json::Value) -> (r: Option<String>)
    ensures
        r is Some == json_text(*doc) is Some,
        r is Some ==> r->0@ == json_text(*doc)->0,
{
    doc.as_str().map(|s| s.to_owned())
}

/// Calls `serde_json::Value::as_u64`: the number, if the document is an
/// integer that fits.
#[verifier::external_body]
pub(crate) fn value_u64(doc: &serde_json::Value) -> (r: Option<u64>)
    ensures
        r == json_u64(*doc),
{
    doc.as_u64()
}

/// The `Display` text of a `serde_json::Error`.
#[verifier::external_body]
fn json_error_text(e: &serde_json::Error) -> (r: String)
    ensures
        r@ == json_error_message(*e),
{
    e.to_string()
}

/// Builds the document `serde_json::Value::String` that holds `text`.
#[verifier::external_body]
fn string_value(text: &str) -> (r: serde_json::Value)
    ensures
        r == json_string(text@),
{
    serde_json::Value::String(text.to_owned())
}

/// The compact `Display` text of a `serde_json::Value`.
#[verifier::external_body]
pub(crate) fn render_json(doc: &serde_json::Value) -> (r: String)
    ensures
        r@ == json_rendered(*doc),
{
    doc.to_string()
}

/// Parses a text as a node record with the `FromStr` of
/// `discv5::enr::Enr<CombinedKey>` and keeps only the error message, if any.
#[verifier::external_body]
pub(crate) fn reject_enr(text: &str) -> (r: Option<String>)
    ensures
        r is Some == enr_rejection(text@) is Some,
        r is Some ==> r->0@ == enr_rejection(text@)->0,
{
    text.parse::<discv5::enr::Enr<discv5::enr::CombinedKey>>().err()
}

/// Calls `url::Url::parse` and keeps only the error, if any.
#[verifier::external_body]
fn reject_url(text: &str) -> (r: Option<url::ParseError>)
    ensures
        r == url_rejection(text@),
{
    url::Url::parse(text).err()
}

/// The `Display` text of a `url::ParseError`.
#[verifier::external_body]
fn url_error_text(e: &url::ParseError) -> (r: String)
    ensures
        r@ == url_error_message(*e),
{
    e.to_string()
}

/// What a response text is, as far as a JSON-RPC client cares.
#[derive(Debug, Clone, PartialEq, Eq)]
pub enum JsonCheck {
    /// Not a JSON document; the parser's message.
    Malformed { message: String },
    /// A JSON document in compact form; `found` says whether it has the
    /// member asked for.
    Document { found: bool, document: String },
}

/// The mathematical value of a [`JsonCheck`].
pub ghost enum JsonCheckView {
    Malformed { message: Seq<char> },
    Document { found: bool, document: Seq<char> },
}

impl View for JsonCheck {
    type V = JsonCheckView;

    open spec fn view(&self) -> JsonCheckView {
        match *self {
            JsonCheck::Malformed { message } => JsonCheckView::Malformed { message: message@ },
            JsonCheck::Document { found, document } => JsonCheckView::Document {
                found,
                document: document@,
            },
        }
    }
}

/// The check of `text` for a member `key`.
pub open spec fn checked_member(text: Seq<char>, key: Seq<char>) -> JsonCheckView {
    match json_parsed(text) {
        Ok(doc) => JsonCheckView::Document {
            found: json_member(doc, key) is Some,
            document: json_rendered(doc),
        },
        Err(e) => JsonCheckView::Malformed { message: json_error_message(e) },
    }
}

/// Parses `text` as JSON and looks for a top-level member `key`.
pub fn check_member(text: &str, key: &str) -> (r: JsonCheck)
    ensures
        r@ == checked_member(text@, key@),
{
    match parse_json(text) {
        Ok(doc) => JsonCheck::Document {
            found: value_member(&doc, key).is_some(),
            document: render_json(&doc),
        },
        Err(e) => JsonCheck::Malformed { message: json_error_text(&e) },
    }
}

/// The JSON string literal for a text, quotes and escapes included: the
/// compact form of the document that is that string.
pub open spec fn json_quoted(text: Seq<char>) -> Seq<char> {
    json_rendered(json_string(text))
}

/// Writes `text` as a JSON string literal.
pub fn quote_json(text: &str) -> (r: String)
    ensures
        r@ == json_quoted(text@),
{
    let doc = string_value(text);
    render_json(&doc)
}

/// The JSON-RPC request for `method`, as a text.
pub open spec fn payload_text(method: Seq<char>) -> Seq<char> {
    "{\"jsonrpc\":\"2.0\",\"id\":1,\"method\":"@ + json_quoted(method) + ",\"params\":[]}"@
}

/// The JSON-RPC request sent by both JSON-RPC probes: version 2.0, id 1, the
/// given method and no parameters.
pub fn jsonrpc_payload(method: &str) -> (r: String)
    ensures
        r@ == payload_text(method@),
{
    let quoted = quote_json(method);
    crate::text::join3("{\"jsonrpc\":\"2.0\",\"id\":1,\"method\":", quoted.as_str(), ",\"params\":[]}")
}

/// The message with which `text` is rejected as a URL, if it is.
pub open spec fn url_complaint(text: Seq<char>) -> Option<Seq<char>> {
    match url_rejection(text) {
        Some(e) => Some(url_error_message(e)),
        None => None,
    }
}

/// Checks that `text` is an absolute URL; returns the parser's message if
/// it is not.
pub fn check_url(text: &str) -> (r: Option<String>)
    ensures
        r is Some == url_complaint(text@) is Some,
        r is Some ==> r->0@ == url_complaint(text@)->0,
{
    match reject_url(text) {
        Some(e) => Some(url_error_text(&e)),
        None => None,
    }
}

} // verus!
