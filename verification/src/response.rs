//! The response that goes back to the HTTP client: a status, headers and a
//! JSON body of one of two shapes, `{"response": ..}` or `{"error": ..}`.
//!
//! Either body is a JSON object with one member, whose value is written as
//! a JSON string: a message or a completion that holds a quote or a line
//! break comes out escaped. A text that needs no escaping stands in the
//! body as it is.

use crate::error_bedrock::{BedrockError, BedrockErrorView};
use crate::json::{in_quotes, is_plain, json_quoted, quote};
use vstd::pervasive::unreached;
use vstd::prelude::*;
use vstd::string::*;

verus! {

/// The header that names the body's type, and its value.
pub const CONTENT_TYPE: &'static str = "content-type";

pub const APPLICATION_JSON: &'static str = "application/json";

/// The header that opens a successful response to every origin, and its
/// value.
pub const ALLOW_ORIGIN: &'static str = "access-control-allow-origin";

pub const ANY_ORIGIN: &'static str = "*";

/// What opens the message of a failed inference call.
pub const CALL_FAILED: &'static str = "Error calling Bedrock: ";

/// What opens the body of a failure.
pub const ERROR_OPEN: &'static str = "{\"error\": ";

/// What opens the body of a success.
pub const RESPONSE_OPEN: &'static str = "{\"response\": ";

/// What closes either body.
pub const BODY_CLOSE: &'static str = "}";

/// A response for the HTTP client.
#[derive(Debug, PartialEq, Eq)]
pub struct OutboundResponse {
    pub status: u16,
    pub headers: Vec<(String, String)>,
    pub body: String,
}

/// An `OutboundResponse` with its strings seen as sequences of characters.
pub struct OutboundResponseView {
    pub status: u16,
    pub headers: Seq<(Seq<char>, Seq<char>)>,
    pub body: Seq<char>,
}

/// Headers seen as pairs of sequences of characters.
pub open spec fn headers_view(headers: Seq<(String, String)>) -> Seq<(Seq<char>, Seq<char>)> {
    Seq::new(headers.len(), |i: int| (headers[i].0@, headers[i].1@))
}

impl View for OutboundResponse {
    type V = OutboundResponseView;

    open spec fn view(&self) -> OutboundResponseView {
        OutboundResponseView {
            status: self.status,
            headers: headers_view(self.headers@),
            body: self.body@,
        }
    }
}

/// The headers of a failure: the content type alone.
pub open spec fn failure_headers() -> Seq<(Seq<char>, Seq<char>)> {
    seq![(CONTENT_TYPE@, APPLICATION_JSON@)]
}

/// The headers of a success: the content type, and the origins allowed.
pub open spec fn success_headers() -> Seq<(Seq<char>, Seq<char>)> {
    seq![(CONTENT_TYPE@, APPLICATION_JSON@), (ALLOW_ORIGIN@, ANY_ORIGIN@)]
}

/// The body that reports a failure: an object whose `error` is the
/// message, written as a JSON string.
pub open spec fn error_body(message: Seq<char>) -> Seq<char> {
    ERROR_OPEN@ + json_quoted(message) + BODY_CLOSE@
}

/// The body that carries a completion: an object whose `response` is the
/// completion, written as a JSON string.
pub open spec fn success_body(completion: Seq<char>) -> Seq<char> {
    RESPONSE_OPEN@ + json_quoted(completion) + BODY_CLOSE@
}

/// The response to a body that was refused with `message`: status 400.
/// The message is shown as a service error.
pub open spec fn bad_request_view(message: Seq<char>) -> OutboundResponseView {
    OutboundResponseView {
        status: 400,
        headers: failure_headers(),
        body: error_body(BedrockErrorView::ServiceError(message).display()),
    }
}

/// The response to a failed inference call: status 500.
pub open spec fn call_failed_view(error: BedrockErrorView) -> OutboundResponseView {
    OutboundResponseView {
        status: 500,
        headers: failure_headers(),
        body: error_body(CALL_FAILED@ + error.display()),
    }
}

/// The response that carries a completion: status 200.
pub open spec fn success_view(completion: Seq<char>) -> OutboundResponseView {
    OutboundResponseView {
        status: 200,
        headers: success_headers(),
        body: success_body(completion),
    }
}

/// The response that a completion or a failed call stands for.
pub open spec fn response_of(completion: Result<Seq<char>, BedrockErrorView>) -> OutboundResponseView {
    match completion {
        Ok(text) => success_view(text),
        Err(error) => call_failed_view(error),
    }
}

/// Whether a response is one of the three that this crate writes.
pub open spec fn is_written(response: OutboundResponseView) -> bool {
    ||| exists|message: Seq<char>| response == bad_request_view(message)
    ||| exists|error: BedrockErrorView| response == call_failed_view(error)
    ||| exists|completion: Seq<char>| response == success_view(completion)
}

/// The headers go by the status: a success, status 200, has the content
/// type and the allowed origins; a failure, status 400 or 500, has the
/// content type alone. There is no other status.
pub proof fn headers_follow_status(response: OutboundResponseView)
    requires
        is_written(response),
    ensures
        response.status == 200 || response.status == 400 || response.status == 500,
        response.status == 200 ==> response.headers == success_headers(),
        response.status != 200 ==> response.headers == failure_headers(),
        success_headers() == seq![
            ("content-type"@, "application/json"@),
            ("access-control-allow-origin"@, "*"@),
        ],
        failure_headers() == seq![("content-type"@, "application/json"@)],
{
}

/// Two texts that need no escaping need none when joined.
pub proof fn plain_texts_join(first: Seq<char>, second: Seq<char>)
    requires
        is_plain(first),
        is_plain(second),
    ensures
        is_plain(first + second),
{
    let joined = first + second;
    assert forall|i: int| 0 <= i < joined.len() implies joined[i] != '"' && joined[i] != '\\'
        && joined[i] as u32 >= 0x20 by {
        if i < first.len() {
            assert(joined[i] == first[i]);
        } else {
            assert(joined[i] == second[i - first.len()]);
        }
    }
}

/// The fixed texts that open or make up a message need no escaping.
pub proof fn fixed_texts_are_plain()
    ensures
        is_plain("Bedrock service error: "@),
        is_plain("Request body is empty"@),
        is_plain(CALL_FAILED@),
        is_plain("No response from Bedrock"@),
{
    reveal_strlit("Bedrock service error: ");
    reveal_strlit("Request body is empty");
    reveal_strlit("Error calling Bedrock: ");
    reveal_strlit("No response from Bedrock");
}

/// The message for an empty request needs no escaping, and the refusal
/// that holds it between its fixed opening and close is one fixed text.
pub proof fn empty_refusal_is_fixed()
    ensures
        is_plain("Request body is empty"@),
        "{\"error\": \"Bedrock service error: "@ + "Request body is empty"@ + "\"}"@
            == "{\"error\": \"Bedrock service error: Request body is empty\"}"@,
{
    fixed_texts_are_plain();
    reveal_strlit("{\"error\": \"Bedrock service error: ");
    reveal_strlit("Request body is empty");
    reveal_strlit("\"}");
    reveal_strlit("{\"error\": \"Bedrock service error: Request body is empty\"}");
    assert("{\"error\": \"Bedrock service error: "@ + "Request body is empty"@ + "\"}"@
        =~= "{\"error\": \"Bedrock service error: Request body is empty\"}"@);
}

/// The body of a failure whose message needs no escaping, where writing
/// the message as a JSON string has put it between quotes: the message
/// stands in the body as it is.
pub proof fn plain_error_body(message: Seq<char>)
    requires
        json_quoted(message) == in_quotes(message),
    ensures
        error_body(message) == "{\"error\": \""@ + message + "\"}"@,
{
    reveal_strlit("{\"error\": ");
    reveal_strlit("{\"error\": \"");
    reveal_strlit("\"}");
    reveal_strlit("\"");
    reveal_strlit("}");
    assert(error_body(message) =~= "{\"error\": \""@ + message + "\"}"@);
}

/// The body of a success whose completion needs no escaping, where
/// writing the completion as a JSON string has put it between quotes.
pub proof fn plain_success_body(completion: Seq<char>)
    requires
        json_quoted(completion) == in_quotes(completion),
    ensures
        success_body(completion) == "{\"response\": \""@ + completion + "\"}"@,
{
    reveal_strlit("{\"response\": ");
    reveal_strlit("{\"response\": \"");
    reveal_strlit("\"}");
    reveal_strlit("\"");
    reveal_strlit("}");
    assert(success_body(completion) =~= "{\"response\": \""@ + completion + "\"}"@);
}

/// Writes a text as a JSON string.
pub fn quoted(text: &str) -> (literal: String)
    ensures
        literal@ == json_quoted(text@),
        is_plain(text@) ==> literal@ == in_quotes(text@),
{
    match quote(text) {
        Ok(literal) => literal,
        Err(_) => unreached(),
    }
}

/// The content-type header of every response.
fn content_type_header() -> (header: (String, String))
    ensures
        (header.0@, header.1@) == (CONTENT_TYPE@, APPLICATION_JSON@),
{
    (String::from_str(CONTENT_TYPE), String::from_str(APPLICATION_JSON))
}

/// Writes the response to a failure, with the content type as its only
/// header.
fn failure(status: u16, message: &str) -> (response: OutboundResponse)
    ensures
        response@ == (OutboundResponseView {
            status,
            headers: failure_headers(),
            body: error_body(message@),
        }),
        is_plain(message@) ==> response.body@ == "{\"error\": \""@ + message@ + "\"}"@,
{
    let mut headers: Vec<(String, String)> = Vec::new();
    headers.push(content_type_header());
    let literal = quoted(message);
    proof {
        if is_plain(message@) {
            plain_error_body(message@);
        }
    }
    let body = String::from_str(ERROR_OPEN).concat(literal.as_str()).concat(BODY_CLOSE);
    let response = OutboundResponse { status, headers, body };
    assert(response@.headers =~= failure_headers());
    response
}

/// Writes the response to a request body that was refused: status 400,
/// with the message shown as a service error.
pub fn bad_request(message: String) -> (response: OutboundResponse)
    ensures
        response@ == bad_request_view(message@),
        is_plain(message@) ==> response.body@ == "{\"error\": \"Bedrock service error: "@
            + message@ + "\"}"@,
{
    let shown = BedrockError::from(message).to_string();
    proof {
        if is_plain(message@) {
            fixed_texts_are_plain();
            plain_texts_join("Bedrock service error: "@, message@);
            reveal_strlit("{\"error\": \"");
            reveal_strlit("Bedrock service error: ");
            reveal_strlit("{\"error\": \"Bedrock service error: ");
            assert("{\"error\": \""@ + shown@ + "\"}"@ =~= "{\"error\": \"Bedrock service error: "@
                + message@ + "\"}"@);
        }
    }
    failure(400, shown.as_str())
}

/// Writes the response to a failed inference call: status 500.
pub fn call_failed(error: &BedrockError) -> (response: OutboundResponse)
    ensures
        response@ == call_failed_view(error@),
        is_plain(error@.display()) ==> response.body@ == "{\"error\": \"Error calling Bedrock: "@
            + error@.display() + "\"}"@,
        error@ is NoResponse ==> response.body@
            == "{\"error\": \"Error calling Bedrock: No response from Bedrock\"}"@,
{
    let shown = String::from_str(CALL_FAILED).concat(error.to_string().as_str());
    proof {
        fixed_texts_are_plain();
        reveal_strlit("{\"error\": \"");
        reveal_strlit("Error calling Bedrock: ");
        reveal_strlit("{\"error\": \"Error calling Bedrock: ");
        if is_plain(error@.display()) {
            plain_texts_join(CALL_FAILED@, error@.display());
            assert("{\"error\": \""@ + shown@ + "\"}"@ =~= "{\"error\": \"Error calling Bedrock: "@
                + error@.display() + "\"}"@);
        }
        if error@ is NoResponse {
            reveal_strlit("No response from Bedrock");
            reveal_strlit("\"}");
            reveal_strlit("{\"error\": \"Error calling Bedrock: No response from Bedrock\"}");
            assert("{\"error\": \"Error calling Bedrock: "@ + "No response from Bedrock"@ + "\"}"@
                =~= "{\"error\": \"Error calling Bedrock: No response from Bedrock\"}"@);
        }
    }
    failure(500, shown.as_str())
}

/// Writes the response that carries a completion: status 200.
pub fn success(completion: &str) -> (response: OutboundResponse)
    ensures
        response@ == success_view(completion@),
        is_plain(completion@) ==> response.body@ == "{\"response\": \""@ + completion@ + "\"}"@,
{
    let mut headers: Vec<(String, String)> = Vec::new();
    headers.push(content_type_header());
    headers.push((String::from_str(ALLOW_ORIGIN), String::from_str(ANY_ORIGIN)));
    let literal = quoted(completion);
    proof {
        if is_plain(completion@) {
            plain_success_body(completion@);
        }
    }
    let body = String::from_str(RESPONSE_OPEN).concat(literal.as_str()).concat(BODY_CLOSE);
    let response = OutboundResponse { status: 200, headers, body };
    assert(response@.headers =~= success_headers());
    response
}

/// Writes the response for what an inference call came to: the completion
/// in a success, or the error in a failure with status 500.
pub fn respond(completion: Result<String, BedrockError>) -> (response: OutboundResponse)
    ensures
        response@ == response_of(
            match completion {
                Ok(text) => Ok(text@),
                Err(error) => Err(error@),
            },
        ),
        completion is Ok <==> response.status == 200,
        completion is Err <==> response.status == 500,
        completion matches Err(error) && error@ is NoResponse ==> response.body@
            == "{\"error\": \"Error calling Bedrock: No response from Bedrock\"}"@,
{
    match completion {
        Ok(text) => success(text.as_str()),
        Err(error) => call_failed(&error),
    }
}

} // verus!
