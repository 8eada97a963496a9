//! The handler: from a request body to the response, by way of one
//! inference call.
//!
//! The model to ask is not fixed here: every function takes its
//! identifier, so that a deployment names it once and a test names its
//! own. The call itself is not made here either. `begin` reads the body and
//! either answers at once or hands out the request to submit; `finish`
//! turns what the call gave into the response. `function_handler` runs
//! both around a call that is given as a function.

use crate::error_bedrock::BedrockErrorView;
use crate::invoke::{
    build_request, call_bedrock, completion_of_outcome, read_outcome, request_of, ConverseRequest,
    ConverseRequestView, USER_ROLE,
};
use crate::json::json_parse;
use crate::prompt::{extract_prompt_from_body, prompt_of_body, EMPTY_BODY};
use crate::response::{
    bad_request, bad_request_view, call_failed, call_failed_view, failure_headers,
    empty_refusal_is_fixed, is_written, respond, response_of, success_headers, success_view,
    OutboundResponse, OutboundResponseView,
};
use crate::sdk::{message_role, message_segments};
use aws_sdk_bedrockruntime::error::SdkError;
use aws_sdk_bedrockruntime::operation::converse::{ConverseError, ConverseOutput};
use vstd::prelude::*;
use vstd::utf8::*;

verus! {

/// What is to be done once the request body has been read.
pub enum Step {
    /// Answer at once, without an inference call.
    Respond(OutboundResponse),
    /// Submit this request, and hand what comes back to `finish`.
    Invoke(ConverseRequest),
}

/// A `Step` with its strings seen as sequences of characters.
pub enum StepView {
    Respond(OutboundResponseView),
    Invoke(ConverseRequestView),
}

impl View for Step {
    type V = StepView;

    open spec fn view(&self) -> StepView {
        match *self {
            Step::Respond(response) => StepView::Respond(response@),
            Step::Invoke(request) => StepView::Invoke(request@),
        }
    }
}

/// The step that a request body calls for: a refusal with status 400 for
/// a body without a prompt to read, a failure with status 500 where the
/// message cannot be built, and else the request for the body's prompt.
/// (The SDK's builder does not refuse a message of this form; `begin`
/// says so of the requests that it hands out.)
pub open spec fn first_step(body: Seq<u8>, model_id: Seq<char>) -> StepView {
    match prompt_of_body(body) {
        Err(message) => StepView::Respond(bad_request_view(message)),
        Ok(prompt) => match request_of(model_id, prompt) {
            Err(error) => StepView::Respond(call_failed_view(error)),
            Ok(request) => StepView::Invoke(request),
        },
    }
}

/// The response to a request body, given what the inference call comes to
/// where one is made.
pub open spec fn handled(
    body: Seq<u8>,
    model_id: Seq<char>,
    completion: Result<Seq<char>, BedrockErrorView>,
) -> OutboundResponseView {
    match first_step(body, model_id) {
        StepView::Respond(response) => response,
        StepView::Invoke(_) => response_of(completion),
    }
}

/// A body of no bytes is refused with status 400 and the message that the
/// body is empty, whatever the model and whatever a call would have given.
pub proof fn empty_body_is_refused(
    body: Seq<u8>,
    model_id: Seq<char>,
    completion: Result<Seq<char>, BedrockErrorView>,
)
    requires
        body.len() == 0,
    ensures
        first_step(body, model_id) == StepView::Respond(bad_request_view(EMPTY_BODY@)),
        handled(body, model_id, completion) == bad_request_view(EMPTY_BODY@),
        bad_request_view(EMPTY_BODY@).status == 400,
{
}

/// A body of text that does not parse as JSON is refused with status 400
/// and the parser's message, and no request is handed out: the response
/// is the same whatever a call would have given.
pub proof fn unparsable_body_is_refused(
    body: Seq<u8>,
    model_id: Seq<char>,
    message: Seq<char>,
    completion: Result<Seq<char>, BedrockErrorView>,
)
    requires
        body.len() > 0,
        valid_utf8(body),
        json_parse(decode_utf8(body)) == Err::<serde_json::Value, Seq<char>>(message),
    ensures
        first_step(body, model_id) == StepView::Respond(bad_request_view(message)),
        handled(body, model_id, completion) == bad_request_view(message),
        bad_request_view(message).status == 400,
{
}

/// No request is handed out for a body without a prompt to read: every
/// such body is answered at once, with status 400.
pub proof fn refused_body_makes_no_call(body: Seq<u8>, model_id: Seq<char>)
    requires
        prompt_of_body(body) is Err,
    ensures
        first_step(body, model_id) matches StepView::Respond(response) && response.status == 400,
{
}

/// Handling is repeatable: the same body, the same model and the same
/// outcome of the call give the same response, header for header and
/// character for character.
pub proof fn handling_is_repeatable(
    body: Seq<u8>,
    model_id: Seq<char>,
    first: Result<ConverseOutput, SdkError<ConverseError>>,
    second: Result<ConverseOutput, SdkError<ConverseError>>,
)
    requires
        completion_of_outcome(first) == completion_of_outcome(second),
    ensures
        handled(body, model_id, completion_of_outcome(first)) == handled(
            body,
            model_id,
            completion_of_outcome(second),
        ),
{
}

/// Every response is one of the three that the crate writes: a refusal
/// with status 400, a failure with status 500 or a success with status
/// 200.
pub proof fn handled_is_written(
    body: Seq<u8>,
    model_id: Seq<char>,
    completion: Result<Seq<char>, BedrockErrorView>,
)
    ensures
        is_written(handled(body, model_id, completion)),
{
    let response = handled(body, model_id, completion);
    match first_step(body, model_id) {
        StepView::Respond(_) => {
            match prompt_of_body(body) {
                Err(message) => {
                    assert(response == bad_request_view(message));
                },
                Ok(prompt) => {
                    let error = request_of(model_id, prompt)->Err_0;
                    assert(response == call_failed_view(error));
                },
            }
        },
        StepView::Invoke(_) => {
            match completion {
                Ok(text) => {
                    assert(response == success_view(text));
                },
                Err(error) => {
                    assert(response == call_failed_view(error));
                },
            }
        },
    }
}

/// The status goes by what happened: 400 exactly where the body has no
/// prompt to read; 500 exactly where it has one and the request cannot be
/// built or the call fails; 200 exactly where a completion was read. A
/// success has the content type and the allowed origins as its headers, a
/// failure the content type alone.
pub proof fn status_follows_outcome(
    body: Seq<u8>,
    model_id: Seq<char>,
    completion: Result<Seq<char>, BedrockErrorView>,
)
    ensures
        handled(body, model_id, completion).status == 400 <==> prompt_of_body(body) is Err,
        handled(body, model_id, completion).status == 500 <==> (prompt_of_body(body) matches Ok(
            prompt,
        ) && (request_of(model_id, prompt) is Err || completion is Err)),
        handled(body, model_id, completion).status == 200 <==> (prompt_of_body(body) matches Ok(
            prompt,
        ) && request_of(model_id, prompt) is Ok && completion is Ok),
        handled(body, model_id, completion).status == 200 ==> handled(
            body,
            model_id,
            completion,
        ).headers == success_headers(),
        handled(body, model_id, completion).status != 200 ==> handled(
            body,
            model_id,
            completion,
        ).headers == failure_headers(),
{
}

/// Reads the request body and says what is to be done: answer at once, or
/// submit a request. A request is handed out exactly where the body has a
/// prompt to read; it holds one message, from the user, with the prompt as
/// its only segment. Every other body is answered with status 400.
pub fn begin(body: &[u8], model_id: &str) -> (step: Step)
    ensures
        step@ == first_step(body@, model_id@),
        match prompt_of_body(body@) {
            Ok(prompt) => step matches Step::Invoke(request) && request.model_id@ == model_id@
                && message_role(request.message) == USER_ROLE@ && message_segments(
                request.message,
            ) == seq![Some(prompt)],
            Err(message) => step matches Step::Respond(response) && response@ == bad_request_view(
                message,
            ),
        },
        body@.len() == 0 ==> (step matches Step::Respond(response) && response.status == 400
            && response.body@ == "{\"error\": \"Bedrock service error: Request body is empty\"}"@),
{
    match extract_prompt_from_body(body) {
        Err(message) => {
            proof {
                empty_refusal_is_fixed();
            }
            Step::Respond(bad_request(message))
        },
        Ok(prompt) => match build_request(model_id, prompt.as_str()) {
            Err(error) => Step::Respond(call_failed(&error)),
            Ok(request) => Step::Invoke(request),
        },
    }
}

/// Turns what the inference call gave into the response: status 200 with
/// the completion where one was read, status 500 with the error otherwise.
pub fn finish(outcome: Result<ConverseOutput, SdkError<ConverseError>>) -> (response:
    OutboundResponse)
    ensures
        response@ == response_of(completion_of_outcome(outcome)),
        completion_of_outcome(outcome) is Ok <==> response.status == 200,
        completion_of_outcome(outcome) is Err <==> response.status == 500,
        completion_of_outcome(outcome) == Err::<Seq<char>, BedrockErrorView>(
            BedrockErrorView::NoResponse,
        ) ==> response.body@ == "{\"error\": \"Error calling Bedrock: No response from Bedrock\"}"@,
{
    respond(read_outcome(outcome))
}

/// Handles one request: reads the prompt, asks the model through `invoke`
/// and writes the response.
///
/// A body without a prompt to read is answered with status 400; `invoke`
/// is left alone, and nothing is asked of it. For every other body
/// `invoke` is called once, with the request for the prompt: a failed call
/// and a reply without text are answered with status 500, a completion
/// with status 200.
pub fn function_handler<F>(body: &[u8], model_id: &str, invoke: F) -> (response:
    OutboundResponse) where
    F: FnOnce(ConverseRequest) -> Result<ConverseOutput, SdkError<ConverseError>>,

    requires
        forall|request: ConverseRequest|
            first_step(body@, model_id@) == StepView::Invoke(request@) ==> invoke.requires(
                (request,),
            ),
    ensures
        match prompt_of_body(body@) {
            Err(message) => response@ == bad_request_view(message),
            Ok(prompt) => exists|
                request: ConverseRequest,
                outcome: Result<ConverseOutput, SdkError<ConverseError>>,
            |
                first_step(body@, model_id@) == StepView::Invoke(request@) && request.model_id@
                    == model_id@ && message_role(request.message) == USER_ROLE@
                    && message_segments(request.message) == seq![Some(prompt)] && invoke.ensures(
                    (request,),
                    outcome,
                ) && response@ == response_of(completion_of_outcome(outcome)) && (response.status
                    == 200 <==> completion_of_outcome(outcome) is Ok) && (response.status == 500
                    <==> completion_of_outcome(outcome) is Err),
        },
        response.status == 400 || response.status == 500 || response.status == 200,
        response.status == 400 <==> prompt_of_body(body@) is Err,
        response.status == 200 ==> response@.headers == success_headers(),
        response.status != 200 ==> response@.headers == failure_headers(),
        body@.len() == 0 ==> response.body@
            == "{\"error\": \"Bedrock service error: Request body is empty\"}"@,
{
    match extract_prompt_from_body(body) {
        Err(message) => {
            proof {
                empty_refusal_is_fixed();
            }
            bad_request(message)
        },
        Ok(prompt) => respond(call_bedrock(invoke, model_id, prompt.as_str())),
    }
}

} // verus!
