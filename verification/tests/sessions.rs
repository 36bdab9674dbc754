use asr_core::classify_qwen_event;
use asr_core::doubao_response_text;
use asr_core::qwen_append_json;
use asr_core::qwen_commit_json;
use asr_core::qwen_session_update_json;
use asr_core::ASRError;
use asr_core::DoubaoSessionState;
use asr_core::QwenServerEvent;
use asr_core::QwenSessionState;
use asr_core::RealtimeSession;
use asr_core::WsOutbound;

#[test]
fn test_qwen_client_event_jsons() {
    assert_eq!(
        qwen_append_json("event_1", &[0, 0, 0]),
        "{\"event_id\":\"event_1\",\"type\":\"input_audio_buffer.append\",\"audio\":\"AAAA\"}"
    );
    assert_eq!(
        qwen_commit_json("event_2"),
        "{\"event_id\":\"event_2\",\"type\":\"input_audio_buffer.commit\"}"
    );
    let update = qwen_session_update_json("event_0");
    assert!(update.starts_with("{\"event_id\":\"event_0\",\"type\":\"session.update\""));
    assert!(update.contains("\"turn_detection\":null"));
    // every client event is well-formed JSON
    for s in [&qwen_append_json("e", &[1, 2]), &qwen_commit_json("e"), &update] {
        let v: serde_json::Value = serde_json::from_str(s).unwrap();
        assert!(v.get("type").is_some());
    }
}

#[test]
fn test_classify_qwen_events() {
    assert!(matches!(
        classify_qwen_event("{\"type\":\"session.created\"}"),
        QwenServerEvent::SessionAck
    ));
    assert!(matches!(
        classify_qwen_event("{\"type\":\"input_audio_buffer.committed\"}"),
        QwenServerEvent::Committed
    ));
    match classify_qwen_event(
        "{\"type\":\"conversation.item.input_audio_transcription.completed\",\"transcript\":\"abc\"}",
    ) {
        QwenServerEvent::TranscriptionCompleted { transcript } => assert_eq!(transcript, "abc"),
        other => panic!("wrong classification: {:?}", other),
    }
    match classify_qwen_event("{\"type\":\"response.audio_transcript.delta\",\"delta\":\"x\"}") {
        QwenServerEvent::TranscriptDelta { delta } => assert_eq!(delta, "x"),
        other => panic!("wrong classification: {:?}", other),
    }
    assert!(matches!(
        classify_qwen_event("{\"type\":\"response.audio_transcript.done\"}"),
        QwenServerEvent::TranscriptDone { transcript: None }
    ));
    assert!(matches!(
        classify_qwen_event("{\"type\":\"response.done\"}"),
        QwenServerEvent::ResponseDone
    ));
    match classify_qwen_event("{\"type\":\"error\",\"error\":{\"message\":\"nope\"}}") {
        QwenServerEvent::ApiError { message } => assert_eq!(message, "nope"),
        other => panic!("wrong classification: {:?}", other),
    }
    assert!(matches!(classify_qwen_event("{\"type\":\"whatever\"}"), QwenServerEvent::Other));
    assert!(matches!(classify_qwen_event("not json"), QwenServerEvent::Other));
    // an error event without a message still classifies as an error
    match classify_qwen_event("{\"type\":\"error\"}") {
        QwenServerEvent::ApiError { message } => assert_eq!(message, "unknown error"),
        other => panic!("wrong classification: {:?}", other),
    }
}

#[test]
fn test_qwen_session_deltas_then_done() {
    let mut s = QwenSessionState::new();
    let step = s.on_event(QwenServerEvent::SessionAck);
    assert!(step.partial.is_none() && step.result.is_none());

    let step = s.on_event(QwenServerEvent::TranscriptDelta { delta: "\u{4f60}".to_string() });
    assert_eq!(step.partial.as_deref(), Some("\u{4f60}"));
    assert!(step.result.is_none());

    let step = s.on_event(QwenServerEvent::TranscriptDelta { delta: "\u{597d}".to_string() });
    assert_eq!(step.partial.as_deref(), Some("\u{4f60}\u{597d}"));
    assert!(step.result.is_none());

    let step = s.on_event(QwenServerEvent::ResponseDone);
    match step.result {
        Some(Ok(text)) => assert_eq!(text, "\u{4f60}\u{597d}"),
        other => panic!("expected resolution, got {:?}", other),
    }
}

#[test]
fn test_qwen_session_strips_punctuation_everywhere() {
    let mut s = QwenSessionState::new();
    let step = s.on_event(QwenServerEvent::TranscriptionCompleted {
        transcript: "\u{4f60}\u{597d}\u{ff0c}\u{4e16}\u{754c}\u{3002}".to_string(),
    });
    match step.result {
        Some(Ok(text)) => assert_eq!(text, "\u{4f60}\u{597d}\u{4e16}\u{754c}"),
        other => panic!("expected resolution, got {:?}", other),
    }
}

#[test]
fn test_qwen_session_error_event_is_fatal() {
    let mut s = QwenSessionState::new();
    let step = s.on_event(QwenServerEvent::ApiError { message: "bad".to_string() });
    assert!(matches!(step.result, Some(Err(ASRError::WebSocketError(_)))));
}

#[test]
fn test_qwen_session_done_without_text_waits() {
    let mut s = QwenSessionState::new();
    // completion seen, but no text yet: not resolved
    let step = s.on_event(QwenServerEvent::ResponseDone);
    assert!(step.result.is_none());
    // text arrives afterwards: resolution fires
    let step = s.on_event(QwenServerEvent::TranscriptDelta { delta: "ok".to_string() });
    assert!(matches!(step.result, Some(Ok(_))));
}

#[test]
fn test_qwen_partial_credit_on_drop() {
    let mut s = QwenSessionState::new();
    s.on_event(QwenServerEvent::TranscriptDelta { delta: "half an answer!".to_string() });
    assert_eq!(s.on_connection_closed().unwrap(), "half an answer");

    let mut s = QwenSessionState::new();
    assert!(matches!(s.on_connection_closed(), Err(ASRError::WebSocketError(_))));
}

#[test]
fn test_doubao_session_text_replaces() {
    let mut s = DoubaoSessionState::new();
    let step = s.on_response(Some("a".to_string()), false);
    assert_eq!(step.partial.as_deref(), Some("a"));
    assert!(step.result.is_none());
    // each response replaces the running text, nothing is appended
    let step = s.on_response(Some("ab".to_string()), false);
    assert_eq!(step.partial.as_deref(), Some("ab"));
    // empty interim text leaves the best text alone
    let step = s.on_response(Some(String::new()), false);
    assert!(step.partial.is_none());
    let step = s.on_response(None, true);
    match step.result {
        Some(Ok(text)) => assert_eq!(text, "ab"),
        other => panic!("expected resolution, got {:?}", other),
    }
}

#[test]
fn test_doubao_partial_credit_on_drop() {
    let mut s = DoubaoSessionState::new();
    s.on_response(Some("partial words".to_string()), false);
    assert_eq!(s.on_connection_closed().unwrap(), "partial words");

    let mut s = DoubaoSessionState::new();
    assert!(matches!(s.on_connection_closed(), Err(ASRError::WebSocketError(_))));
}

#[test]
fn test_doubao_server_error_is_fatal() {
    let mut s = DoubaoSessionState::new();
    let e = s.on_server_error("code 42".to_string());
    assert!(matches!(e, ASRError::WebSocketError(_)));
}

#[test]
fn test_doubao_response_text_extraction() {
    assert_eq!(
        doubao_response_text("{\"result\":{\"text\":\"hi\"}}").as_deref(),
        Some("hi")
    );
    assert!(doubao_response_text("{\"result\":{}}").is_none());
    assert!(doubao_response_text("nope").is_none());
}

#[test]
fn test_realtime_session_chunk_and_finish() {
    let mut s = RealtimeSession::new_doubao();
    match s.chunk_message(&[1, 2], "unused") {
        WsOutbound::Binary(b) => {
            assert_eq!(b[1], 0x21);
            assert_eq!(&b[4..8], &2i32.to_be_bytes());
            assert_eq!(&b[12..], &[1, 2]);
        }
        other => panic!("expected a binary frame, got {:?}", other),
    }
    match s.finish_message("unused") {
        WsOutbound::Binary(b) => assert_eq!(&b[4..8], &(-3i32).to_be_bytes()),
        other => panic!("expected a binary frame, got {:?}", other),
    }

    let mut s = RealtimeSession::new_qwen();
    match s.chunk_message(&[0, 0, 0], "event_9") {
        WsOutbound::Text(t) => assert_eq!(
            t,
            "{\"event_id\":\"event_9\",\"type\":\"input_audio_buffer.append\",\"audio\":\"AAAA\"}"
        ),
        other => panic!("expected a text event, got {:?}", other),
    }
    match s.finish_message("event_10") {
        WsOutbound::Text(t) => {
            assert_eq!(t, "{\"event_id\":\"event_10\",\"type\":\"input_audio_buffer.commit\"}")
        }
        other => panic!("expected a text event, got {:?}", other),
    }
}
