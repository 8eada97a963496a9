//! Reading the prompt out of a request body.
//!
//! A body is accepted when it is non-empty UTF-8 text that parses as a JSON
//! object whose `prompt` member is absent, `null` or a string. Every other
//! body is refused with a message for the client.

use crate::json::{
    error_text, json_is_null, json_is_object, json_member, json_parse, json_text, member,
    parse_document,
};
use crate::text::{decode_error_text, utf8_failure};
use serde_json::Value;
use vstd::prelude::*;
use vstd::string::*;
use vstd::utf8::*;

verus! {

/// The prompt that stands in where a request names none.
pub const DEFAULT_PROMPT: &'static str = "Hello!";

/// The member of the request object that carries the prompt.
pub const PROMPT_KEY: &'static str = "prompt";

/// The message for a body of no bytes.
pub const EMPTY_BODY: &'static str = "Request body is empty";

/// The message for a JSON document that is no object.
pub const NOT_AN_OBJECT: &'static str = "invalid type: expected a JSON object";

/// The message for a `prompt` member that is neither `null` nor a string.
pub const PROMPT_NOT_TEXT: &'static str = "invalid type for `prompt`: expected a string";

/// What a parsed request body says about the prompt.
pub enum BodyShape {
    /// The document is not a JSON object.
    NotObject,
    /// An object without a `prompt` member.
    Missing,
    /// An object whose `prompt` is `null`.
    Null,
    /// An object whose `prompt` is this string.
    Text(String),
    /// An object whose `prompt` is something else.
    Mistyped,
}

/// A `BodyShape` with its string seen as a sequence of characters.
pub enum BodyShapeView {
    NotObject,
    Missing,
    Null,
    Text(Seq<char>),
    Mistyped,
}

impl View for BodyShape {
    type V = BodyShapeView;

    open spec fn view(&self) -> BodyShapeView {
        match *self {
            BodyShape::NotObject => BodyShapeView::NotObject,
            BodyShape::Missing => BodyShapeView::Missing,
            BodyShape::Null => BodyShapeView::Null,
            BodyShape::Text(text) => BodyShapeView::Text(text@),
            BodyShape::Mistyped => BodyShapeView::Mistyped,
        }
    }
}

/// A textual outcome, success or failure, seen as sequences of characters.
pub open spec fn outcome_view(outcome: Result<String, String>) -> Result<Seq<char>, Seq<char>> {
    match outcome {
        Ok(text) => Ok(text@),
        Err(message) => Err(message@),
    }
}

/// The shape of a parsed document.
pub open spec fn shape_of(doc: Value) -> BodyShapeView {
    if !json_is_object(doc) {
        BodyShapeView::NotObject
    } else {
        match json_member(doc, PROMPT_KEY@) {
            None => BodyShapeView::Missing,
            Some(value) => if json_is_null(value) {
                BodyShapeView::Null
            } else {
                match json_text(value) {
                    Some(text) => BodyShapeView::Text(text),
                    None => BodyShapeView::Mistyped,
                }
            },
        }
    }
}

/// The prompt that a shape stands for, or the message that refuses it.
pub open spec fn prompt_of_shape(shape: BodyShapeView) -> Result<Seq<char>, Seq<char>> {
    match shape {
        BodyShapeView::NotObject => Err(NOT_AN_OBJECT@),
        BodyShapeView::Missing => Ok(DEFAULT_PROMPT@),
        BodyShapeView::Null => Ok(DEFAULT_PROMPT@),
        BodyShapeView::Text(text) => Ok(text),
        BodyShapeView::Mistyped => Err(PROMPT_NOT_TEXT@),
    }
}

/// The prompt that a body of text stands for: the text must parse as JSON,
/// and the document must have an accepted shape.
pub open spec fn prompt_of_text(text: Seq<char>) -> Result<Seq<char>, Seq<char>> {
    match json_parse(text) {
        Ok(doc) => prompt_of_shape(shape_of(doc)),
        Err(message) => Err(message),
    }
}

/// The prompt that a request body stands for, or the message that refuses
/// the body.
pub open spec fn prompt_of_body(body: Seq<u8>) -> Result<Seq<char>, Seq<char>> {
    if body.len() == 0 {
        Err(EMPTY_BODY@)
    } else if !valid_utf8(body) {
        Err(utf8_failure(body))
    } else {
        prompt_of_text(decode_utf8(body))
    }
}

/// A prompt is read verbatim: a body that parses to an object whose
/// `prompt` is a string gives exactly that string, the empty one too.
pub proof fn prompt_is_read_verbatim(body: Seq<u8>, doc: Value, prompt: Seq<char>)
    requires
        body.len() > 0,
        valid_utf8(body),
        json_parse(decode_utf8(body)) == Ok::<Value, Seq<char>>(doc),
        shape_of(doc) == BodyShapeView::Text(prompt),
    ensures
        prompt_of_body(body) == Ok::<Seq<char>, Seq<char>>(prompt),
{
}

/// A body that parses to an object whose `prompt` is absent or `null`
/// gives the default prompt.
pub proof fn absent_prompt_is_default(body: Seq<u8>, doc: Value)
    requires
        body.len() > 0,
        valid_utf8(body),
        json_parse(decode_utf8(body)) == Ok::<Value, Seq<char>>(doc),
        shape_of(doc) is Missing || shape_of(doc) is Null,
    ensures
        prompt_of_body(body) == Ok::<Seq<char>, Seq<char>>(DEFAULT_PROMPT@),
{
}

/// A prompt is read exactly from the accepted bodies: non-empty, valid
/// UTF-8, parsing to an object whose `prompt` is absent, `null` or a
/// string.
pub proof fn prompt_is_read_from_accepted_bodies(body: Seq<u8>)
    ensures
        prompt_of_body(body) is Ok <==> body.len() > 0 && valid_utf8(body) && (json_parse(
            decode_utf8(body),
        ) matches Ok(doc) && (shape_of(doc) is Missing || shape_of(doc) is Null || shape_of(
            doc,
        ) is Text)),
{
}

/// Looks at a parsed document and tells its shape.
pub fn classify_document(doc: &Value) -> (shape: BodyShape)
    ensures
        shape@ == shape_of(*doc),
{
    if !doc.is_object() {
        return BodyShape::NotObject;
    }
    match member(doc, PROMPT_KEY) {
        None => BodyShape::Missing,
        Some(value) => {
            if value.is_null() {
                BodyShape::Null
            } else {
                match value.as_str() {
                    Some(text) => BodyShape::Text(String::from_str(text)),
                    None => BodyShape::Mistyped,
                }
            }
        },
    }
}

/// Turns a shape into the prompt: the string of a `Text`, the default for
/// a missing or `null` prompt, and a refusal for the two other shapes.
pub fn prompt_from_shape(shape: BodyShape) -> (outcome: Result<String, String>)
    ensures
        outcome_view(outcome) == prompt_of_shape(shape@),
{
    match shape {
        BodyShape::NotObject => Err(String::from_str(NOT_AN_OBJECT)),
        BodyShape::Missing => Ok(String::from_str(DEFAULT_PROMPT)),
        BodyShape::Null => Ok(String::from_str(DEFAULT_PROMPT)),
        BodyShape::Text(text) => Ok(text),
        BodyShape::Mistyped => Err(String::from_str(PROMPT_NOT_TEXT)),
    }
}

/// Parses a body that is already known to be text, and reads its prompt.
pub fn extract_prompt_from_text(text: &str) -> (outcome: Result<String, String>)
    ensures
        outcome_view(outcome) == prompt_of_text(text@),
{
    match parse_document(text) {
        Ok(doc) => prompt_from_shape(classify_document(&doc)),
        Err(error) => Err(error_text(&error)),
    }
}

/// Reads the prompt out of a request body.
///
/// The outcome is `Ok` exactly for a non-empty body of valid UTF-8 that
/// parses as a JSON object whose `prompt` is absent, `null` or a string; a
/// string is returned as it stands, with no trimming. Every other body gives
/// `Err` with the message for the client.
pub fn extract_prompt_from_body(body: &[u8]) -> (outcome: Result<String, String>)
    ensures
        outcome_view(outcome) == prompt_of_body(body@),
{
    if body.len() == 0 {
        return Err(String::from_str(EMPTY_BODY));
    }
    match core::str::from_utf8(body) {
        Ok(text) => extract_prompt_from_text(text),
        Err(error) => Err(decode_error_text(&error)),
    }
}

} // verus!
