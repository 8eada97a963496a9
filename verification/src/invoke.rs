//! One inference call: the request that goes out, and the completion that
//! is read from what comes back.
//!
//! The request is a single message from the user with the prompt as its
//! only segment. The completion is the first text segment of the reply's
//! message; segments of other kinds are passed over, and whatever follows
//! the first text is ignored.

use crate::error_bedrock::{call_failure, BedrockError, BedrockErrorView, BUILD_PREFIX};
use crate::sdk::{
    block_text, build_error_text, built_message, message_role, message_segments, reply_segments,
    sdk_error_text, service_error_detail, single_text_message,
};
use aws_sdk_bedrockruntime::error::{BuildError, SdkError};
use aws_sdk_bedrockruntime::operation::converse::{ConverseError, ConverseOutput};
use aws_sdk_bedrockruntime::types::{ContentBlock, Message};
use vstd::prelude::*;
use vstd::string::*;

verus! {

/// The role under which a prompt is sent.
pub const USER_ROLE: &'static str = "user";

/// What is submitted to the service: the model to ask, and the one message
/// of the conversation.
pub struct ConverseRequest {
    pub model_id: String,
    pub message: Message,
}

/// A `ConverseRequest` with its model seen as a sequence of characters.
pub struct ConverseRequestView {
    pub model_id: Seq<char>,
    pub message: Message,
}

impl View for ConverseRequest {
    type V = ConverseRequestView;

    open spec fn view(&self) -> ConverseRequestView {
        ConverseRequestView { model_id: self.model_id@, message: self.message }
    }
}

/// The error that a failure of the builder stands for.
pub open spec fn build_failure_of(failure: BuildError) -> BedrockErrorView {
    BedrockErrorView::BuildError(BUILD_PREFIX@ + build_error_text(failure))
}

/// The message that goes out for a prompt, or the build error where the
/// builder refuses it.
pub open spec fn user_message_of(prompt: Seq<char>) -> Result<Message, BedrockErrorView> {
    match built_message(USER_ROLE@, prompt) {
        Ok(message) => Ok(message),
        Err(failure) => Err(build_failure_of(failure)),
    }
}

/// The request that goes out for a prompt, or the build error where the
/// builder refuses it.
pub open spec fn request_of(model_id: Seq<char>, prompt: Seq<char>) -> Result<
    ConverseRequestView,
    BedrockErrorView,
> {
    match user_message_of(prompt) {
        Ok(message) => Ok(ConverseRequestView { model_id, message }),
        Err(error) => Err(error),
    }
}

/// An optional string seen as an optional sequence of characters.
pub open spec fn text_view(text: Option<String>) -> Option<Seq<char>> {
    match text {
        Some(t) => Some(t@),
        None => None,
    }
}

/// Segments seen as optional sequences of characters.
pub open spec fn segments_view(segments: Seq<Option<String>>) -> Seq<Option<Seq<char>>> {
    Seq::new(segments.len(), |i: int| text_view(segments[i]))
}

/// The segments of a reply, where it has a message, seen as optional
/// sequences of characters.
pub open spec fn reply_view(segments: Option<Vec<Option<String>>>) -> Option<
    Seq<Option<Seq<char>>>,
> {
    match segments {
        Some(list) => Some(segments_view(list@)),
        None => None,
    }
}

/// The outcome of a call seen with its strings as sequences of characters.
pub open spec fn completion_view(outcome: Result<String, BedrockError>) -> Result<
    Seq<char>,
    BedrockErrorView,
> {
    match outcome {
        Ok(text) => Ok(text@),
        Err(error) => Err(error@),
    }
}

/// Whether segment `i` is text and no segment before it is.
pub open spec fn is_first_text(segments: Seq<Option<Seq<char>>>, i: int) -> bool {
    &&& 0 <= i < segments.len()
    &&& segments[i] is Some
    &&& forall|j: int| 0 <= j < i ==> segments[j] is None
}

/// The first text among the segments, if any segment is text.
pub open spec fn first_text(segments: Seq<Option<Seq<char>>>) -> Option<Seq<char>> {
    if exists|i: int| is_first_text(segments, i) {
        segments[choose|i: int| is_first_text(segments, i)]
    } else {
        None
    }
}

/// The completion that a reply stands for: the first text of its message,
/// and no response where it has no message or the message has no text.
pub open spec fn completion_of(reply: Option<Seq<Option<Seq<char>>>>) -> Result<
    Seq<char>,
    BedrockErrorView,
> {
    match reply {
        Some(segments) => match first_text(segments) {
            Some(text) => Ok(text),
            None => Err(BedrockErrorView::NoResponse),
        },
        None => Err(BedrockErrorView::NoResponse),
    }
}

/// The completion that the outcome of a call stands for.
pub open spec fn completion_of_outcome(
    outcome: Result<ConverseOutput, SdkError<ConverseError>>,
) -> Result<Seq<char>, BedrockErrorView> {
    match outcome {
        Ok(reply) => completion_of(reply_segments(reply)),
        Err(error) => Err(call_failure(service_error_detail(error), sdk_error_text(error))),
    }
}

/// The first text wins: where segment `i` is text and none before it is,
/// the first text is that of segment `i`, whatever follows.
pub proof fn first_text_is_earliest(segments: Seq<Option<Seq<char>>>, i: int)
    requires
        is_first_text(segments, i),
    ensures
        first_text(segments) == segments[i],
{
    let k = choose|k: int| is_first_text(segments, k);
    assert(is_first_text(segments, k));
    if k < i {
        assert(segments[k] is None);
    }
    if i < k {
        assert(segments[i] is None);
    }
}

/// Where no segment is text there is no first text, and so for no
/// segments at all.
pub proof fn first_text_of_no_text(segments: Seq<Option<Seq<char>>>)
    requires
        forall|j: int| 0 <= j < segments.len() ==> segments[j] is None,
    ensures
        first_text(segments) is None,
{
    if exists|i: int| is_first_text(segments, i) {
        let k = choose|k: int| is_first_text(segments, k);
        assert(segments[k] is None);
    }
}

/// Segments that precede the first text, and those that follow it, do not
/// change the completion.
pub proof fn first_text_skips_and_ignores(
    before: Seq<Option<Seq<char>>>,
    text: Seq<char>,
    after: Seq<Option<Seq<char>>>,
)
    requires
        forall|j: int| 0 <= j < before.len() ==> before[j] is None,
    ensures
        first_text(before + seq![Some(text)] + after) == Some(text),
{
    let all = before + seq![Some(text)] + after;
    let i = before.len() as int;
    assert(all[i] == Some(text));
    assert forall|j: int| 0 <= j < i implies all[j] is None by {
        assert(all[j] == before[j]);
    }
    first_text_is_earliest(all, i);
}

/// A reply without a message, or whose message has no text segment (no
/// segment at all, for one), stands for no response.
pub proof fn reply_without_text_is_no_response(reply: Option<Seq<Option<Seq<char>>>>)
    requires
        reply matches Some(segments) ==> forall|j: int|
            0 <= j < segments.len() ==> segments[j] is None,
    ensures
        completion_of(reply) == Err::<Seq<char>, BedrockErrorView>(BedrockErrorView::NoResponse),
{
    if let Some(segments) = reply {
        first_text_of_no_text(segments);
    }
}

/// Maps the builder's outcome: the message as it stands, and a failure to
/// a build error with the builder's text.
pub fn message_or_error(built: Result<Message, BuildError>) -> (outcome: Result<
    Message,
    BedrockError,
>)
    ensures
        match built {
            Ok(message) => outcome == Ok::<Message, BedrockError>(message),
            Err(failure) => outcome matches Err(error) && error@ == build_failure_of(failure),
        },
{
    match built {
        Ok(message) => Ok(message),
        Err(failure) => Err(BedrockError::from(failure)),
    }
}

/// Builds the one message of the conversation: from the user, with the
/// prompt as its only segment. The SDK's builder is given all it asks
/// for, so a message comes back for every prompt.
pub fn build_user_message(prompt: &str) -> (outcome: Result<Message, BedrockError>)
    ensures
        outcome matches Ok(message) && user_message_of(prompt@) == Ok::<
            Message,
            BedrockErrorView,
        >(message) && message_role(message) == USER_ROLE@ && message_segments(message)
            == seq![Some(prompt@)],
{
    message_or_error(single_text_message(USER_ROLE, prompt))
}

/// Builds the request for one prompt: the model to ask and the user's
/// message. A request comes back for every model and prompt.
pub fn build_request(model_id: &str, prompt: &str) -> (outcome: Result<
    ConverseRequest,
    BedrockError,
>)
    ensures
        outcome matches Ok(request) && request_of(model_id@, prompt@) == Ok::<
            ConverseRequestView,
            BedrockErrorView,
        >(request@) && message_role(request.message) == USER_ROLE@ && message_segments(
            request.message,
        ) == seq![Some(prompt@)],
{
    match build_user_message(prompt) {
        Ok(message) => Ok(ConverseRequest { model_id: String::from_str(model_id), message }),
        Err(error) => Err(error),
    }
}

/// Reads one content block: its string where it is text, `None` where it
/// is of any other kind.
pub fn block_segment(block: &ContentBlock) -> (segment: Option<String>)
    ensures
        text_view(segment) == block_text(*block),
{
    match block.as_text() {
        Ok(text) => Some(text.clone()),
        Err(_) => None,
    }
}

/// Reads the segments out of a reply: `None` where the reply has no
/// output or its output is no message, else one entry for each content
/// block of the message, in order.
pub fn reply_texts(reply: &ConverseOutput) -> (segments: Option<Vec<Option<String>>>)
    ensures
        reply_view(segments) == reply_segments(*reply),
{
    match reply.output() {
        None => None,
        Some(output) => match output.as_message() {
            Err(_) => None,
            Ok(message) => {
                let blocks = message.content();
                let mut texts: Vec<Option<String>> = Vec::new();
                let mut i: usize = 0;
                while i < blocks.len()
                    invariant
                        i <= blocks.len(),
                        texts@.len() == i,
                        forall|j: int| 0 <= j < i ==> text_view(texts@[j]) == block_text(blocks@[j]),
                    decreases blocks.len() - i,
                {
                    texts.push(block_segment(&blocks[i]));
                    i += 1;
                }
                assert(segments_view(texts@) =~= message_segments(*message));
                Some(texts)
            },
        },
    }
}

/// Picks the first text among the segments: the text of the earliest
/// segment that is one, and nothing where no segment is text.
pub fn first_text_segment(segments: &Vec<Option<String>>) -> (text: Option<String>)
    ensures
        text_view(text) == first_text(segments_view(segments@)),
        match text {
            Some(found) => exists|i: int|
                is_first_text(segments_view(segments@), i) && segments_view(segments@)[i] == Some(
                    found@,
                ),
            None => forall|j: int| 0 <= j < segments@.len() ==> segments@[j] is None,
        },
{
    let mut i: usize = 0;
    while i < segments.len()
        invariant
            i <= segments.len(),
            forall|j: int| 0 <= j < i ==> segments@[j] is None,
        decreases segments.len() - i,
    {
        match &segments[i] {
            Some(text) => {
                proof {
                    first_text_is_earliest(segments_view(segments@), i as int);
                    assert(is_first_text(segments_view(segments@), i as int));
                }
                return Some(text.clone());
            },
            None => {},
        }
        i += 1;
    }
    proof {
        first_text_of_no_text(segments_view(segments@));
    }
    None
}

/// Picks the completion out of a reply's segments: the first text, and no
/// response where the reply has no message or the message has no text.
pub fn completion_from_segments(segments: &Option<Vec<Option<String>>>) -> (outcome: Result<
    String,
    BedrockError,
>)
    ensures
        completion_view(outcome) == completion_of(reply_view(*segments)),
{
    match segments {
        Some(list) => match first_text_segment(list) {
            Some(text) => Ok(text),
            None => Err(BedrockError::NoResponse),
        },
        None => Err(BedrockError::NoResponse),
    }
}

/// Reads the completion out of a reply.
pub fn extract_text(reply: &ConverseOutput) -> (outcome: Result<String, BedrockError>)
    ensures
        completion_view(outcome) == completion_of(reply_segments(*reply)),
{
    completion_from_segments(&reply_texts(reply))
}

/// Reads the completion out of what a call gave: the reply's first text,
/// or the error that the failure stands for.
pub fn read_outcome(outcome: Result<ConverseOutput, SdkError<ConverseError>>) -> (completion:
    Result<String, BedrockError>)
    ensures
        completion_view(completion) == completion_of_outcome(outcome),
{
    match outcome {
        Ok(reply) => extract_text(&reply),
        Err(failure) => Err(BedrockError::from(failure)),
    }
}

/// Asks the model once and reads the completion.
///
/// The message is built, `invoke` is called once with the request, and the
/// completion is read from what it gives: the first text of the reply, no
/// response where the reply has none, and the error that a failed call
/// stands for. The request names `model_id` and holds one message, from
/// the user, with `user_message` as its only segment.
pub fn call_bedrock<F>(invoke: F, model_id: &str, user_message: &str) -> (completion: Result<
    String,
    BedrockError,
>) where F: FnOnce(ConverseRequest) -> Result<ConverseOutput, SdkError<ConverseError>>
    requires
        forall|request: ConverseRequest|
            request_of(model_id@, user_message@) == Ok::<ConverseRequestView, BedrockErrorView>(
                request@,
            ) ==> invoke.requires((request,)),
    ensures
        exists|request: ConverseRequest, outcome: Result<ConverseOutput, SdkError<ConverseError>>|
            request_of(model_id@, user_message@) == Ok::<ConverseRequestView, BedrockErrorView>(
                request@,
            ) && request.model_id@ == model_id@ && message_role(request.message) == USER_ROLE@
                && message_segments(request.message) == seq![Some(user_message@)]
                && invoke.ensures((request,), outcome) && completion_view(completion)
                == completion_of_outcome(outcome),
{
    match build_request(model_id, user_message) {
        Ok(request) => read_outcome(invoke(request)),
        Err(error) => Err(error),
    }
}

} // verus!
