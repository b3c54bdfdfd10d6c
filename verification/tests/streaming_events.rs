use wit_owo::dictation::{parse_dictation_body, DictationSession, SpeechType};
use wit_owo::error::{parse_wit_error, ApiError};
use wit_owo::speech::{parse_speech_body, SpeechEventKind, SpeechSession};

fn text_field(body: &str) -> String {
    serde_json::from_str::<serde_json::Value>(body)
        .unwrap()
        .get("text")
        .unwrap()
        .as_str()
        .unwrap()
        .to_string()
}

#[test]
fn speech_session_streams_two_chunks() {
    // A frame split across two transport chunks: the first chunk yields the
    // complete first event, the second completes the second frame.
    let mut session = SpeechSession::new();

    let (events, err) = session.push_chunk(r#"{"type":"PARTIAL_TRANSCRIPTION","text":"hi"}{"type":"FINAL_TRAN"#);
    assert!(err.is_none());
    assert_eq!(events.len(), 1);
    assert_eq!(events[0].kind, SpeechEventKind::PartialTranscription);
    assert_eq!(text_field(&events[0].body), "hi");

    let (events, err) = session.push_chunk(r#"SCRIPTION","text":"hi there"}"#);
    assert!(err.is_none());
    assert_eq!(events.len(), 1);
    assert_eq!(events[0].kind, SpeechEventKind::FinalTranscription);
    assert_eq!(text_field(&events[0].body), "hi there");
    assert_eq!(session.buffered(), "");
}

#[test]
fn speech_unknown_tag_is_skipped() {
    // An unrecognised discriminator yields no event and no error, and later
    // frames keep coming.
    let body = r#"{"type":"UNKNOWN_TAG","text":"x"}{"type":"FINAL_TRANSCRIPTION","text":"ok"}"#;
    let events = parse_speech_body(body).unwrap();
    assert_eq!(events.len(), 1);
    assert_eq!(events[0].kind, SpeechEventKind::FinalTranscription);
    assert_eq!(text_field(&events[0].body), "ok");
}

#[test]
fn speech_missing_tag_is_skipped() {
    let body = r#"{"text":"no tag here"}{"type":"PARTIAL_UNDERSTANDING","text":"u"}"#;
    let events = parse_speech_body(body).unwrap();
    assert_eq!(events.len(), 1);
    assert_eq!(events[0].kind, SpeechEventKind::PartialUnderstanding);
}

#[test]
fn speech_invalid_frame_is_an_error() {
    // A complete frame that is not a JSON document aborts the whole
    // blocking call.
    let body = r#"{"type":}{"type":"FINAL_TRANSCRIPTION","text":"ok"}"#;
    let result = parse_speech_body(body);
    match result {
        Err(ApiError::SerializationError(d)) => assert_eq!(d.frame, r#"{"type":}"#),
        _ => panic!("expected a decode error"),
    }
}

#[test]
fn speech_stream_keeps_events_before_error() {
    let mut session = SpeechSession::new();
    let (events, err) =
        session.push_chunk(r#"{"type":"PARTIAL_TRANSCRIPTION","text":"hi"}{"bad":}"#);
    assert_eq!(events.len(), 1);
    assert_eq!(events[0].kind, SpeechEventKind::PartialTranscription);
    assert_eq!(err.unwrap().frame, r#"{"bad":}"#);
}

#[test]
fn speech_all_four_kinds_decode() {
    let mut body = String::new();
    body.push_str(r#"{"type":"PARTIAL_TRANSCRIPTION","text":"a"}"#);
    body.push_str(r#"{"type":"FINAL_TRANSCRIPTION","text":"b"}"#);
    body.push_str(r#"{"type":"PARTIAL_UNDERSTANDING","text":"c"}"#);
    body.push_str(r#"{"type":"FINAL_UNDERSTANDING","text":"d"}"#);
    let events = parse_speech_body(&body).unwrap();
    let kinds: Vec<SpeechEventKind> = events.iter().map(|e| e.kind).collect();
    assert_eq!(
        kinds,
        vec![
            SpeechEventKind::PartialTranscription,
            SpeechEventKind::FinalTranscription,
            SpeechEventKind::PartialUnderstanding,
            SpeechEventKind::FinalUnderstanding,
        ]
    );
}

#[test]
fn dictation_body_decodes_in_order() {
    let mut body = String::new();
    body.push_str(r#"{"type":"PARTIAL_TRANSCRIPTION","text":"the"}"#);
    body.push_str(r#" {"type":"FINAL_TRANSCRIPTION","text":"the end"}"#);
    let events = parse_dictation_body(&body).unwrap();
    assert_eq!(events.len(), 2);
    assert_eq!(events[0].speech_type, SpeechType::PartialTranscription);
    assert_eq!(events[1].speech_type, SpeechType::FinalTranscription);
    assert_eq!(text_field(&events[1].body), "the end");
}

#[test]
fn dictation_unknown_tag_is_an_error() {
    // Dictation decodes every frame into one fixed shape: an unrecognised
    // discriminator is a decode failure, not a skip.
    let body = r#"{"type":"SOMETHING_ELSE","text":"x"}"#;
    match parse_dictation_body(body) {
        Err(ApiError::SerializationError(d)) => {
            assert_eq!(d.frame, r#"{"type":"SOMETHING_ELSE","text":"x"}"#)
        },
        _ => panic!("expected a decode error"),
    }
}

#[test]
fn dictation_missing_tag_is_an_error() {
    let body = r#"{"text":"x"}"#;
    assert!(parse_dictation_body(body).is_err());
}

#[test]
fn dictation_session_streams_chunks() {
    let mut session = DictationSession::new();
    let (events, err) = session.push_chunk(r#"{"type":"PARTIAL_TRANSCRIPTION","te"#);
    assert!(err.is_none());
    assert!(events.is_empty());
    let (events, err) = session.push_chunk(r#"xt":"hel"}"#);
    assert!(err.is_none());
    assert_eq!(events.len(), 1);
    assert_eq!(events[0].speech_type, SpeechType::PartialTranscription);
    assert_eq!(session.buffered(), "");
}

#[test]
fn wit_error_parses_code_and_message() {
    let body = r#"{ "code": "invalid_request", "message": "Missing required parameter" }"#;
    let err = parse_wit_error(body).unwrap();
    assert_eq!(err.code, "invalid_request");
    assert_eq!(err.message, "Missing required parameter");
}

#[test]
fn wit_error_needs_both_fields() {
    assert!(parse_wit_error(r#"{"code":"oops"}"#).is_none());
    assert!(parse_wit_error(r#"{"message":"oops"}"#).is_none());
    assert!(parse_wit_error("not json").is_none());
}
