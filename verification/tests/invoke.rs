use aws_sdk_bedrockruntime::error::{BuildError, SdkError};
use aws_sdk_bedrockruntime::operation::converse::{ConverseError, ConverseOutput};
use aws_sdk_bedrockruntime::types;
use aws_sdk_bedrockruntime::types::{
    CachePointBlock, CachePointType, ContentBlock, ConversationRole, Message, StopReason,
};
use lambda_agent::error_bedrock::BedrockError;
use lambda_agent::invoke::{
    block_segment, build_request, build_user_message, call_bedrock, completion_from_segments,
    extract_text, first_text_segment, message_or_error, read_outcome, reply_texts,
    ConverseRequest, USER_ROLE,
};
use std::cell::Cell;

fn text(value: &str) -> ContentBlock {
    ContentBlock::Text(value.to_string())
}

fn marker() -> ContentBlock {
    ContentBlock::CachePoint(
        CachePointBlock::builder()
            .set_type(Some(CachePointType::Default))
            .build()
            .unwrap(),
    )
}

fn reply_with(blocks: Vec<ContentBlock>) -> ConverseOutput {
    let message = Message::builder()
        .role(ConversationRole::Assistant)
        .set_content(Some(blocks))
        .build()
        .unwrap();
    ConverseOutput::builder()
        .output(types::ConverseOutput::Message(message))
        .stop_reason(StopReason::EndTurn)
        .build()
        .unwrap()
}

fn reply_without_output() -> ConverseOutput {
    ConverseOutput::builder()
        .stop_reason(StopReason::EndTurn)
        .build()
        .unwrap()
}

#[test]
fn user_message_has_the_prompt_as_its_only_segment() {
    let message = build_user_message("Tell me a joke").unwrap();
    assert_eq!(message.role(), &ConversationRole::User);
    assert_eq!(message.role().as_str(), "user");
    assert_eq!(message.content().len(), 1);
    assert_eq!(message.content()[0].as_text().unwrap(), "Tell me a joke");
    assert_eq!(USER_ROLE, "user");
}

#[test]
fn empty_prompt_is_sent_as_it_stands() {
    let message = build_user_message("").unwrap();
    assert_eq!(message.content().len(), 1);
    assert_eq!(message.content()[0].as_text().unwrap(), "");
}

#[test]
fn request_names_the_model_and_one_message() {
    let request = build_request("model-a", "hi").unwrap();
    assert_eq!(request.model_id, "model-a");
    assert_eq!(request.message.role(), &ConversationRole::User);
    assert_eq!(request.message.content(), &[text("hi")]);
}

#[test]
fn built_message_is_passed_through() {
    let message = Message::builder()
        .role(ConversationRole::User)
        .content(text("x"))
        .build();
    let outcome = message_or_error(message).unwrap();
    assert_eq!(outcome.content(), &[text("x")]);
}

#[test]
fn builder_failure_is_a_build_error() {
    let failed = Message::builder().content(text("x")).build();
    assert!(failed.is_err());
    match message_or_error(failed) {
        Err(BedrockError::BuildError(msg)) => assert_eq!(
            msg,
            "Build error: role was missing: role was not specified but it is required when building Message"
        ),
        _ => panic!("a failure of the builder is a build error"),
    }
}

#[test]
fn blocks_are_read_as_text_or_nothing() {
    assert_eq!(block_segment(&text("a")), Some("a".to_string()));
    assert_eq!(block_segment(&text("")), Some(String::new()));
    assert_eq!(block_segment(&marker()), None);
}

#[test]
fn reply_is_read_segment_by_segment() {
    let reply = reply_with(vec![marker(), text("ok"), marker(), text("late")]);
    assert_eq!(
        reply_texts(&reply),
        Some(vec![None, Some("ok".to_string()), None, Some("late".to_string())])
    );
    assert_eq!(reply_texts(&reply_with(vec![])), Some(vec![]));
    assert_eq!(reply_texts(&reply_without_output()), None);
}

#[test]
fn first_text_is_picked() {
    assert_eq!(first_text_segment(&vec![]), None);
    assert_eq!(first_text_segment(&vec![None, None]), None);
    assert_eq!(
        first_text_segment(&vec![Some("a".to_string())]),
        Some("a".to_string())
    );
    assert_eq!(
        first_text_segment(&vec![None, Some("b".to_string()), Some("c".to_string())]),
        Some("b".to_string())
    );
    assert_eq!(
        first_text_segment(&vec![Some(String::new()), Some("c".to_string())]),
        Some(String::new())
    );
}

#[test]
fn segments_give_the_completion_or_no_response() {
    assert!(matches!(
        completion_from_segments(&None),
        Err(BedrockError::NoResponse)
    ));
    assert!(matches!(
        completion_from_segments(&Some(vec![])),
        Err(BedrockError::NoResponse)
    ));
    assert!(matches!(
        completion_from_segments(&Some(vec![None])),
        Err(BedrockError::NoResponse)
    ));
    assert!(matches!(
        completion_from_segments(&Some(vec![None, Some("ok".to_string())])),
        Ok(text) if text == "ok"
    ));
}

#[test]
fn text_after_a_block_of_another_kind_is_returned() {
    let reply = reply_with(vec![marker(), text("ok")]);
    assert!(matches!(extract_text(&reply), Ok(text) if text == "ok"));
}

#[test]
fn single_text_is_returned() {
    let reply = reply_with(vec![text("Why did the chicken cross the road?")]);
    assert!(matches!(
        extract_text(&reply),
        Ok(text) if text == "Why did the chicken cross the road?"
    ));
}

#[test]
fn later_segments_are_ignored() {
    let reply = reply_with(vec![text("first"), text("second"), marker()]);
    assert!(matches!(extract_text(&reply), Ok(text) if text == "first"));
}

#[test]
fn reply_without_segments_is_no_response() {
    assert!(matches!(
        extract_text(&reply_with(vec![])),
        Err(BedrockError::NoResponse)
    ));
}

#[test]
fn reply_without_text_is_no_response() {
    assert!(matches!(
        extract_text(&reply_with(vec![marker(), marker()])),
        Err(BedrockError::NoResponse)
    ));
}

#[test]
fn reply_without_output_is_no_response() {
    assert!(matches!(
        extract_text(&reply_without_output()),
        Err(BedrockError::NoResponse)
    ));
}

#[test]
fn outcome_of_a_call_is_read() {
    assert!(matches!(
        read_outcome(Ok(reply_with(vec![text("ok")]))),
        Ok(text) if text == "ok"
    ));
    assert!(matches!(
        read_outcome(Ok(reply_without_output())),
        Err(BedrockError::NoResponse)
    ));
    assert!(matches!(
        read_outcome(Err(SdkError::timeout_error("slow"))),
        Err(BedrockError::SdkError(msg)) if msg == "SDK error: request has timed out"
    ));
}

#[test]
fn call_hands_the_request_to_the_service_once() {
    let calls = Cell::new(0);
    let seen = Cell::new(None);
    let completion = call_bedrock(
        |request: ConverseRequest| {
            calls.set(calls.get() + 1);
            seen.set(Some(request));
            Ok(reply_with(vec![text("pong")]))
        },
        "model-a",
        "ping",
    );
    assert!(matches!(completion, Ok(text) if text == "pong"));
    assert_eq!(calls.get(), 1);
    let request = seen.take().unwrap();
    assert_eq!(request.model_id, "model-a");
    assert_eq!(request.message.role(), &ConversationRole::User);
    assert_eq!(request.message.content(), &[text("ping")]);
}

#[test]
fn call_reports_the_failure_of_the_service() {
    let completion = call_bedrock(
        |_request: ConverseRequest| {
            Err::<ConverseOutput, SdkError<ConverseError>>(SdkError::construction_failure(
                BuildError::other("no region"),
            ))
        },
        "model-a",
        "ping",
    );
    assert!(matches!(
        completion,
        Err(BedrockError::SdkError(msg)) if msg == "SDK error: failed to construct request"
    ));
}
