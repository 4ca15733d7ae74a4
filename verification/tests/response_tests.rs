use groq_transcribe::response::{interpret_response, parsed_text_to_result, trim_whitespace};
use groq_transcribe::errors::TranscribeError;

#[test]
fn non_success_status_yields_remote_api_error_with_status() {
    let body = "{\"error\": \"rate limit\"}".to_string();
    match interpret_response(429, body.clone()) {
        Err(TranscribeError::RemoteApiError { status, body: b }) => {
            assert_eq!(status, 429);
            assert_eq!(b, body);
        }
        _ => panic!("a non-success status must yield a RemoteApiError"),
    }
}

#[test]
fn status_three_hundred_is_not_success() {
    match interpret_response(300, "{\"text\": \"hi\"}".to_string()) {
        Err(TranscribeError::RemoteApiError { status, .. }) => assert_eq!(status, 300),
        _ => panic!("status 300 must yield a RemoteApiError"),
    }
}

#[test]
fn status_two_ninety_nine_is_success() {
    match interpret_response(299, "{\"text\": \"hi\"}".to_string()) {
        Ok(text) => assert_eq!(text, "hi"),
        Err(_) => panic!("status 299 must be treated as success"),
    }
}

#[test]
fn missing_text_member_yields_deserialization_error() {
    match interpret_response(200, "{\"foo\": 1}".to_string()) {
        Err(TranscribeError::DeserializationError { .. }) => {}
        _ => panic!("a body without the text member must yield a DeserializationError"),
    }
}

#[test]
fn invalid_json_yields_deserialization_error() {
    match interpret_response(200, "not json at all".to_string()) {
        Err(TranscribeError::DeserializationError { .. }) => {}
        _ => panic!("an unparsable body must yield a DeserializationError"),
    }
}

#[test]
fn non_string_text_member_yields_deserialization_error() {
    match interpret_response(200, "{\"text\": 5}".to_string()) {
        Err(TranscribeError::DeserializationError { .. }) => {}
        _ => panic!("a non-string text member must yield a DeserializationError"),
    }
}

#[test]
fn successful_response_is_trimmed() {
    match interpret_response(200, "{\"text\": \"  hello world  \"}".to_string()) {
        Ok(text) => assert_eq!(text, "hello world"),
        Err(_) => panic!("a well-formed success must yield the text"),
    }
}

#[test]
fn extra_members_are_ignored() {
    let body = "{\"text\": \"ok\", \"x_groq\": {\"id\": \"req_1\"}}".to_string();
    match interpret_response(200, body) {
        Ok(text) => assert_eq!(text, "ok"),
        Err(_) => panic!("extra members must not disturb extraction"),
    }
}

#[test]
fn parsed_text_is_trimmed_and_absence_is_an_error() {
    match parsed_text_to_result(Some(" x ".to_string())) {
        Ok(text) => assert_eq!(text, "x"),
        Err(_) => panic!("a present text must be returned"),
    }
    match parsed_text_to_result(None) {
        Err(TranscribeError::DeserializationError { .. }) => {}
        _ => panic!("an absent text must yield a DeserializationError"),
    }
}

#[test]
fn trim_handles_edges() {
    assert_eq!(trim_whitespace(""), "");
    assert_eq!(trim_whitespace("   "), "");
    assert_eq!(trim_whitespace("a"), "a");
    assert_eq!(trim_whitespace(" a b "), "a b");
    assert_eq!(trim_whitespace("\t\r\n x \n"), "x");
    assert_eq!(trim_whitespace("\u{00A0}\u{2003}x\u{3000}"), "x");
    assert_eq!(trim_whitespace("inner  space"), "inner  space");
}

#[test]
fn trim_agrees_with_std() {
    let cases = ["", " ", " word ", "\u{2028}two words\u{205F}", "no-trim"];
    for c in cases {
        assert_eq!(trim_whitespace(c), c.trim());
    }
}
