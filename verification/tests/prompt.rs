use lambda_agent::prompt::{
    classify_document, extract_prompt_from_body, extract_prompt_from_text, prompt_from_shape,
    BodyShape, DEFAULT_PROMPT, EMPTY_BODY, NOT_AN_OBJECT, PROMPT_NOT_TEXT,
};
use serde_json::Value;

fn parsed(text: &str) -> Value {
    serde_json::from_str::<Value>(text).unwrap()
}

#[test]
fn empty_body_is_an_error() {
    assert_eq!(
        extract_prompt_from_body(b""),
        Err("Request body is empty".to_string())
    );
    assert_eq!(EMPTY_BODY, "Request body is empty");
}

#[test]
fn prompt_is_returned_verbatim() {
    assert_eq!(
        extract_prompt_from_body(br#"{"prompt": "Tell me a joke"}"#),
        Ok("Tell me a joke".to_string())
    );
}

#[test]
fn prompt_is_not_trimmed() {
    assert_eq!(
        extract_prompt_from_body(br#"{"prompt": "  padded \t"}"#),
        Ok("  padded \t".to_string())
    );
}

#[test]
fn empty_prompt_is_a_prompt() {
    assert_eq!(
        extract_prompt_from_body(br#"{"prompt": ""}"#),
        Ok(String::new())
    );
}

#[test]
fn escapes_in_the_prompt_are_decoded() {
    assert_eq!(
        extract_prompt_from_body(r#"{"prompt": "a\"b\\c\ne\u00e9"}"#.as_bytes()),
        Ok("a\"b\\c\ne\u{e9}".to_string())
    );
}

#[test]
fn prompt_outside_ascii_is_kept() {
    assert_eq!(
        extract_prompt_from_body("{\"prompt\": \"gr\u{fc}\u{df} dich \u{1f600}\"}".as_bytes()),
        Ok("gr\u{fc}\u{df} dich \u{1f600}".to_string())
    );
}

#[test]
fn missing_prompt_gives_the_default() {
    assert_eq!(extract_prompt_from_body(b"{}"), Ok("Hello!".to_string()));
    assert_eq!(DEFAULT_PROMPT, "Hello!");
}

#[test]
fn null_prompt_gives_the_default() {
    assert_eq!(
        extract_prompt_from_body(br#"{"prompt": null}"#),
        Ok("Hello!".to_string())
    );
}

#[test]
fn other_fields_are_ignored() {
    assert_eq!(
        extract_prompt_from_body(br#"{"user": 7, "prompt": "hi", "tags": ["a", {"b": null}]}"#),
        Ok("hi".to_string())
    );
    assert_eq!(
        extract_prompt_from_body(br#"{"user": 7}"#),
        Ok("Hello!".to_string())
    );
}

#[test]
fn surrounding_whitespace_is_accepted() {
    assert_eq!(
        extract_prompt_from_body(b" \n{ \"prompt\" : \"hi\" }\n "),
        Ok("hi".to_string())
    );
}

#[test]
fn invalid_utf8_is_an_error() {
    let outcome = extract_prompt_from_body(&[b'{', 0xff, b'}']);
    assert_eq!(
        outcome,
        Err("invalid utf-8 sequence of 1 bytes from index 1".to_string())
    );
}

#[test]
fn truncated_utf8_is_an_error() {
    let outcome = extract_prompt_from_body(&[b'{', b'"', 0xe2, 0x82]);
    assert_eq!(
        outcome,
        Err("incomplete utf-8 byte sequence from index 2".to_string())
    );
}

#[test]
fn text_that_is_no_json_is_an_error() {
    assert_eq!(
        extract_prompt_from_body(b"not json"),
        Err("expected ident at line 1 column 2".to_string())
    );
    assert_eq!(
        extract_prompt_from_body(b"hello"),
        Err("expected value at line 1 column 1".to_string())
    );
}

#[test]
fn truncated_json_is_an_error() {
    assert_eq!(
        extract_prompt_from_body(br#"{"prompt": "hi""#),
        Err("EOF while parsing an object at line 1 column 15".to_string())
    );
}

#[test]
fn trailing_text_is_an_error() {
    assert_eq!(
        extract_prompt_from_body(br#"{"prompt": "hi"} x"#),
        Err("trailing characters at line 1 column 18".to_string())
    );
}

#[test]
fn whitespace_alone_is_an_error() {
    assert_eq!(
        extract_prompt_from_body(b"   "),
        Err("EOF while parsing a value at line 1 column 3".to_string())
    );
}

#[test]
fn document_that_is_no_object_is_an_error() {
    for body in [&b"5"[..], b"\"prompt\"", b"null", b"true", b"[\"hi\"]", b"[]"] {
        assert_eq!(
            extract_prompt_from_body(body),
            Err("invalid type: expected a JSON object".to_string())
        );
    }
    assert_eq!(NOT_AN_OBJECT, "invalid type: expected a JSON object");
}

#[test]
fn prompt_that_is_no_string_is_an_error() {
    for body in [
        &br#"{"prompt": 5}"#[..],
        br#"{"prompt": true}"#,
        br#"{"prompt": ["hi"]}"#,
        br#"{"prompt": {"text": "hi"}}"#,
    ] {
        assert_eq!(
            extract_prompt_from_body(body),
            Err("invalid type for `prompt`: expected a string".to_string())
        );
    }
    assert_eq!(PROMPT_NOT_TEXT, "invalid type for `prompt`: expected a string");
}

#[test]
fn text_is_read_like_a_body() {
    assert_eq!(
        extract_prompt_from_text(r#"{"prompt": "hi"}"#),
        Ok("hi".to_string())
    );
    assert_eq!(extract_prompt_from_text("{}"), Ok("Hello!".to_string()));
    assert_eq!(
        extract_prompt_from_text(""),
        Err("EOF while parsing a value at line 1 column 0".to_string())
    );
}

#[test]
fn documents_are_classified_by_shape() {
    assert!(matches!(classify_document(&parsed("7")), BodyShape::NotObject));
    assert!(matches!(classify_document(&parsed("[]")), BodyShape::NotObject));
    assert!(matches!(classify_document(&parsed("null")), BodyShape::NotObject));
    assert!(matches!(classify_document(&parsed("{}")), BodyShape::Missing));
    assert!(matches!(
        classify_document(&parsed(r#"{"Prompt": "x"}"#)),
        BodyShape::Missing
    ));
    assert!(matches!(
        classify_document(&parsed(r#"{"prompt": null}"#)),
        BodyShape::Null
    ));
    assert!(matches!(
        classify_document(&parsed(r#"{"prompt": 1.5}"#)),
        BodyShape::Mistyped
    ));
    match classify_document(&parsed(r#"{"prompt": "x y"}"#)) {
        BodyShape::Text(text) => assert_eq!(text, "x y"),
        _ => panic!("a string prompt has the shape Text"),
    }
}

#[test]
fn shapes_give_the_prompt_or_a_refusal() {
    assert_eq!(
        prompt_from_shape(BodyShape::Text("x".to_string())),
        Ok("x".to_string())
    );
    assert_eq!(
        prompt_from_shape(BodyShape::Text(String::new())),
        Ok(String::new())
    );
    assert_eq!(prompt_from_shape(BodyShape::Missing), Ok("Hello!".to_string()));
    assert_eq!(prompt_from_shape(BodyShape::Null), Ok("Hello!".to_string()));
    assert_eq!(
        prompt_from_shape(BodyShape::NotObject),
        Err("invalid type: expected a JSON object".to_string())
    );
    assert_eq!(
        prompt_from_shape(BodyShape::Mistyped),
        Err("invalid type for `prompt`: expected a string".to_string())
    );
}
