//! The inference service's SDK, `aws_sdk_bedrockruntime`, as far as this
//! crate builds and reads its values.
//!
//! Nothing in this module is proved: each item states, as a contract that
//! the verifier takes on trust, what one item of the SDK does. A reply is
//! seen through its segments: the content blocks of the message it carries,
//! each one the characters of a text block or `None` for a block of any
//! other kind.

use aws_sdk_bedrockruntime::error::{BuildError, SdkError};
use aws_sdk_bedrockruntime::operation::converse;
use aws_sdk_bedrockruntime::operation::converse::ConverseError;
use aws_sdk_bedrockruntime::types;
use aws_sdk_bedrockruntime::types::{ContentBlock, ConversationRole, Message};
use vstd::prelude::*;

verus! {

/// The reply to a conversation request, `operation::converse::ConverseOutput`.
#[verifier::external_type_specification]
#[verifier::external_body]
pub struct ExReply(aws_sdk_bedrockruntime::operation::converse::ConverseOutput);

/// What a reply carries as its output, `types::ConverseOutput`.
#[verifier::external_type_specification]
#[verifier::external_body]
pub struct ExOutput(aws_sdk_bedrockruntime::types::ConverseOutput);

/// One turn of a conversation, `types::Message`.
#[verifier::external_type_specification]
#[verifier::external_body]
pub struct ExMessage(aws_sdk_bedrockruntime::types::Message);

/// One segment of a message, `types::ContentBlock`.
#[verifier::external_type_specification]
#[verifier::external_body]
pub struct ExContentBlock(aws_sdk_bedrockruntime::types::ContentBlock);

/// Why a value of the SDK could not be built, `error::BuildError`.
#[verifier::external_type_specification]
#[verifier::external_body]
pub struct ExBuildError(aws_sdk_bedrockruntime::error::BuildError);

/// The failures that the service reports for a conversation request,
/// `operation::converse::ConverseError`.
#[verifier::external_type_specification]
#[verifier::external_body]
pub struct ExConverseError(aws_sdk_bedrockruntime::operation::converse::ConverseError);

/// A failed call of the SDK, `error::SdkError`.
#[verifier::external_type_specification]
#[verifier::external_body]
#[verifier::reject_recursive_types(E)]
#[verifier::reject_recursive_types(R)]
pub struct ExSdkError<E, R>(aws_sdk_bedrockruntime::error::SdkError<E, R>);

/// The raw HTTP response that a failed call may carry.
#[verifier::external_type_specification]
#[verifier::external_body]
#[verifier::reject_recursive_types(B)]
pub struct ExResponse<B>(aws_smithy_runtime_api::http::Response<B>);

/// The body of such a response.
#[verifier::external_type_specification]
#[verifier::external_body]
pub struct ExSdkBody(aws_smithy_types::body::SdkBody);

/// The characters of a text block; `None` for a block of any other kind.
pub uninterp spec fn block_text(block: ContentBlock) -> Option<Seq<char>>;

/// The segments of a message, in order.
pub uninterp spec fn message_segments(message: Message) -> Seq<Option<Seq<char>>>;

/// The role of a message, as the string that the service knows it by.
pub uninterp spec fn message_role(message: Message) -> Seq<char>;

/// The segments of an output that is a message; `None` for an output of
/// any other kind.
pub uninterp spec fn output_segments(output: types::ConverseOutput) -> Option<
    Seq<Option<Seq<char>>>,
>;

/// The segments of the message that a reply carries; `None` for a reply
/// without output, or with an output that is no message.
pub uninterp spec fn reply_segments(reply: converse::ConverseOutput) -> Option<
    Seq<Option<Seq<char>>>,
>;

/// The outcome of building a message with the role that `role` names and
/// `text` as its only segment.
pub uninterp spec fn built_message(role: Seq<char>, text: Seq<char>) -> Result<Message, BuildError>;

/// The message that a `BuildError` is shown as.
pub uninterp spec fn build_error_text(error: BuildError) -> Seq<char>;

/// The message that a failed call is shown as.
pub uninterp spec fn sdk_error_text(error: SdkError<ConverseError>) -> Seq<char>;

/// For a failed call that the service itself rejected, the service's
/// diagnostic in its debug form; `None` for every other failure.
pub uninterp spec fn service_error_detail(error: SdkError<ConverseError>) -> Option<Seq<char>>;

/// `operation::converse::ConverseOutput::output`. Claimed: it hands out
/// the reply's output, whose segments are the reply's, or `None` for a
/// reply that has no segments because it has no output.
pub assume_specification<'a>[ converse::ConverseOutput::output ](
    reply: &'a converse::ConverseOutput,
) -> (output: Option<&'a types::ConverseOutput>)
    ensures
        match output {
            Some(inner) => reply_segments(*reply) == output_segments(*inner),
            None => reply_segments(*reply) is None,
        },
;

/// `types::ConverseOutput::as_message`. Claimed: it hands out the message
/// of an output that is one, whose segments are the output's, and fails
/// for an output of any other kind.
pub assume_specification<'a>[ types::ConverseOutput::as_message ](
    output: &'a types::ConverseOutput,
) -> (message: Result<&'a Message, &'a types::ConverseOutput>)
    ensures
        match message {
            Ok(inner) => output_segments(*output) == Some(message_segments(*inner)),
            Err(_) => output_segments(*output) is None,
        },
;

/// `types::Message::content`. Claimed: it hands out the message's content
/// blocks in order, one for each segment.
pub assume_specification<'a>[ Message::content ](message: &'a Message) -> (blocks: &'a [ContentBlock])
    ensures
        blocks@.len() == message_segments(*message).len(),
        forall|i: int|
            0 <= i < blocks@.len() ==> block_text(#[trigger] blocks@[i]) == message_segments(
                *message,
            )[i],
;

/// `types::ContentBlock::as_text`. Claimed: it hands out the string of a
/// text block and fails for a block of any other kind.
pub assume_specification<'a>[ ContentBlock::as_text ](block: &'a ContentBlock) -> (text: Result<
    &'a String,
    &'a ContentBlock,
>)
    ensures
        match text {
            Ok(inner) => block_text(*block) == Some(inner@),
            Err(_) => block_text(*block) is None,
        },
;

/// The builder of `types::Message`, given a role and one text block.
/// Claimed: the builder does not fail, since the two fields that it asks
/// for are both set; the outcome depends on the two strings alone, so it
/// is the one that `built_message` names for them; and the message has the
/// role that `role` names and exactly one segment, the text.
#[verifier::external_body]
pub(crate) fn single_text_message(role: &str, text: &str) -> (built: Result<Message, BuildError>)
    ensures
        built is Ok,
        built == built_message(role@, text@),
        built matches Ok(message) ==> message_role(message) == role@ && message_segments(message)
            == seq![Some(text@)],
{
    Message::builder()
        .role(ConversationRole::from(role))
        .content(ContentBlock::Text(text.to_owned()))
        .build()
}

/// `ToString::to_string` on a `BuildError`, that is its `Display` text.
/// Claimed: the text is the one that `build_error_text` names for this
/// error.
#[verifier::external_body]
pub(crate) fn build_failure_text(error: &BuildError) -> (text: String)
    ensures
        text@ == build_error_text(*error),
{
    error.to_string()
}

/// `ToString::to_string` on an `SdkError`, that is its `Display` text.
/// Claimed: the text is the one that `sdk_error_text` names for this
/// error.
#[verifier::external_body]
pub(crate) fn call_failure_text(error: &SdkError<ConverseError>) -> (text: String)
    ensures
        text@ == sdk_error_text(*error),
{
    error.to_string()
}

/// Tells the `ServiceError` variant of an `SdkError` from the others and,
/// for that variant, formats what `ServiceError::err` hands out with
/// `Debug`. Claimed: the outcome is the one that `service_error_detail`
/// names for this error.
#[verifier::external_body]
pub(crate) fn service_failure_detail(error: &SdkError<ConverseError>) -> (detail: Option<String>)
    ensures
        match detail {
            Some(text) => service_error_detail(*error) == Some(text@),
            None => service_error_detail(*error) is None,
        },
{
    match error {
        SdkError::ServiceError(context) => Some(format!("{:?}", context.err())),
        _ => None,
    }
}

} // verus!
