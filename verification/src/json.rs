//! JSON as `serde_json` reads and writes it.
//!
//! Nothing in this module is proved: each item states, as a contract that
//! the verifier takes on trust, what one function of `serde_json` does. The
//! rest of the crate reasons from these contracts alone.

use serde_json::Value;
use vstd::prelude::*;

verus! {

/// A parsed JSON document, `serde_json::Value`. Its inside is not visible
/// to proofs; they learn of it through the functions below.
#[verifier::external_type_specification]
#[verifier::external_body]
pub struct ExValue(serde_json::Value);

/// A failure of `serde_json`, carrying a message and a position.
#[verifier::external_type_specification]
#[verifier::external_body]
pub struct ExJsonError(serde_json::Error);

/// The outcome of parsing `text` as one JSON document: the document, or the
/// message of the parse failure.
pub uninterp spec fn json_parse(text: Seq<char>) -> Result<Value, Seq<char>>;

/// The message that a `serde_json::Error` is shown as.
pub uninterp spec fn json_error_text(error: serde_json::Error) -> Seq<char>;

/// Whether a document is a JSON object.
pub uninterp spec fn json_is_object(doc: Value) -> bool;

/// Whether a document is the JSON value `null`.
pub uninterp spec fn json_is_null(doc: Value) -> bool;

/// The characters of a document that is a JSON string; `None` for any other
/// document.
pub uninterp spec fn json_text(doc: Value) -> Option<Seq<char>>;

/// The value that an object holds under `key`; `None` where the document
/// is no object or holds no such key.
pub uninterp spec fn json_member(doc: Value, key: Seq<char>) -> Option<Value>;

/// `text` written as a JSON string: quoted, with what JSON cannot hold in a
/// string escaped.
pub uninterp spec fn json_quoted(text: Seq<char>) -> Seq<char>;

/// Whether a text goes into a JSON string as it stands: it holds no double
/// quote, no backslash and no control character.
pub open spec fn is_plain(text: Seq<char>) -> bool {
    forall|i: int|
        #![trigger text[i]]
        0 <= i < text.len() ==> text[i] != '"' && text[i] != '\\' && text[i] as u32 >= 0x20
}

/// A text between two double quotes.
pub open spec fn in_quotes(text: Seq<char>) -> Seq<char> {
    "\""@ + text + "\""@
}

/// `serde_json::from_str` with `serde_json::Value` as its target. Claimed:
/// the outcome depends on the characters of `text` alone, so it is the
/// value that `json_parse` names for them, with a failure named by its
/// message.
#[verifier::external_body]
pub(crate) fn parse_document(text: &str) -> (parsed: Result<Value, serde_json::Error>)
    ensures
        match parsed {
            Ok(doc) => json_parse(text@) == Ok::<Value, Seq<char>>(doc),
            Err(error) => json_parse(text@) == Err::<Value, Seq<char>>(json_error_text(error)),
        },
{
    serde_json::from_str::<Value>(text)
}

/// `ToString::to_string` on a `serde_json::Error`, that is its `Display`
/// text. Claimed: the text is the one that `json_error_text` names for
/// this error.
#[verifier::external_body]
pub(crate) fn error_text(error: &serde_json::Error) -> (text: String)
    ensures
        text@ == json_error_text(*error),
{
    error.to_string()
}

/// `Value::is_object`. Claimed: it answers `json_is_object`.
pub assume_specification[ Value::is_object ](doc: &Value) -> (answer: bool)
    ensures
        answer == json_is_object(*doc),
;

/// `Value::is_null`. Claimed: it answers `json_is_null`.
pub assume_specification[ Value::is_null ](doc: &Value) -> (answer: bool)
    ensures
        answer == json_is_null(*doc),
;

/// `Value::as_str`. Claimed: it hands out the characters that `json_text`
/// names, and `None` exactly where `json_text` is `None`.
pub assume_specification<'a>[ Value::as_str ](doc: &'a Value) -> (text: Option<&'a str>)
    ensures
        match text {
            Some(t) => json_text(*doc) == Some(t@),
            None => json_text(*doc) is None,
        },
;

/// `Value::get` with a string key. Claimed: it hands out the value that
/// `json_member` names, and `None` exactly where `json_member` is `None`.
#[verifier::external_body]
pub(crate) fn member<'a>(doc: &'a Value, key: &str) -> (found: Option<&'a Value>)
    ensures
        match found {
            Some(value) => json_member(*doc, key@) == Some(*value),
            None => json_member(*doc, key@) is None,
        },
{
    doc.get(key)
}

/// `serde_json::to_string` on a `str`. Claimed: writing a string does not
/// fail; the outcome depends on the characters of `text` alone, so it is
/// the one that `json_quoted` names for them; and a text without double
/// quote, backslash and control character comes out as it stands, between
/// two double quotes.
#[verifier::external_body]
pub(crate) fn quote(text: &str) -> (quoted: Result<String, serde_json::Error>)
    ensures
        quoted is Ok,
        quoted matches Ok(literal) ==> literal@ == json_quoted(text@),
        quoted matches Ok(literal) ==> is_plain(text@) ==> literal@ == in_quotes(text@),
{
    serde_json::to_string(text)
}

} // verus!
