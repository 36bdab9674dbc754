use asr_core::bearer_value;
use asr_core::doubao_api_url;
use asr_core::finish_transcript;
use asr_core::qwen_api_url;
use asr_core::qwen_ws_url_with_model;
use asr_core::sensevoice_api_url;
use asr_core::ASRError;
use asr_core::AudioData;
use asr_core::DoubaoHttpEngine;
use asr_core::QwenHttpEngine;
use asr_core::SenseVoiceHttpEngine;

fn audio() -> AudioData {
    AudioData::new(vec![0, 0, 0], 16000, 1)
}

#[test]
fn test_qwen_request_body_shape() {
    let q = QwenHttpEngine::new("k".to_string());
    let body = q.build_request_body(&audio()).unwrap();
    assert!(body.starts_with("{\"model\":\"qwen3-asr-flash\",\"input\""));
    assert!(body.contains("data:audio/wav;base64,"));
    assert!(body.ends_with("\"language\":\"zh\"}}"));
    // the embedded payload is real base64 of a real WAV: it decodes and
    // starts with the RIFF magic
    let start = body.find("base64,").unwrap() + 7;
    let end = body[start..].find('"').unwrap() + start;
    let wav = base64_decode(&body[start..end]);
    assert_eq!(&wav[0..4], b"RIFF");
    assert_eq!(wav.len(), 44 + 6);
}

fn base64_decode(s: &str) -> Vec<u8> {
    base64::Engine::decode(&base64::engine::general_purpose::STANDARD, s).unwrap()
}

#[test]
fn test_doubao_request_body_shape() {
    let d = DoubaoHttpEngine::new("app-1".to_string(), "tok".to_string());
    let body = d.build_request_body(&audio()).unwrap();
    assert!(body.starts_with("{\"user\":{\"uid\":\"app-1\"},\"audio\":{\"data\":\""));
    assert!(body.ends_with("\"},\"request\":{\"model_name\":\"bigmodel\"}}"));
}

#[test]
fn test_qwen_status_classification() {
    let q = QwenHttpEngine::new("k".to_string());
    assert!(matches!(
        q.classify_failure(401, "no".to_string()),
        ASRError::AuthFailed { .. }
    ));
    assert!(matches!(
        q.classify_failure(403, "no".to_string()),
        ASRError::AuthFailed { .. }
    ));
    assert!(matches!(
        q.classify_failure(429, "no".to_string()),
        ASRError::QuotaExceeded { .. }
    ));
    assert!(matches!(
        q.classify_failure(500, "no".to_string()),
        ASRError::NetworkError(_)
    ));
}

#[test]
fn test_doubao_status_classification() {
    let d = DoubaoHttpEngine::new("a".to_string(), "t".to_string());
    assert!(d.classify_status("20000000", "ok").is_none());
    assert!(matches!(
        d.classify_status("40100001", "bad"),
        Some(ASRError::AuthFailed { .. })
    ));
    assert!(matches!(
        d.classify_status("40100002", "bad"),
        Some(ASRError::AuthFailed { .. })
    ));
    assert!(matches!(
        d.classify_status("40300001", "bad"),
        Some(ASRError::AuthFailed { .. })
    ));
    assert!(matches!(
        d.classify_status("42900001", "busy"),
        Some(ASRError::QuotaExceeded { .. })
    ));
    assert!(matches!(
        d.classify_status("50000000", "down"),
        Some(ASRError::NetworkError(_))
    ));
}

#[test]
fn test_sensevoice_status_classification() {
    let s = SenseVoiceHttpEngine::new("k".to_string());
    assert!(matches!(s.classify_failure(401, String::new()), ASRError::AuthFailed { .. }));
    assert!(matches!(s.classify_failure(429, String::new()), ASRError::QuotaExceeded { .. }));
    assert!(matches!(s.classify_failure(404, String::new()), ASRError::ConfigError(_)));
    assert!(matches!(s.classify_failure(503, String::new()), ASRError::NetworkError(_)));
    assert!(matches!(s.classify_failure(504, String::new()), ASRError::NetworkError(_)));
}

#[test]
fn test_qwen_response_parsing() {
    let q = QwenHttpEngine::new("k".to_string());
    let body = "{\"output\":{\"choices\":[{\"message\":{\"content\":[{\"text\":\"\u{4f60}\u{597d}\u{3002}\"}]}}]}}";
    assert_eq!(q.parse_response(body).unwrap(), "\u{4f60}\u{597d}");
    assert!(matches!(q.parse_response("{}"), Err(ASRError::InternalError(_))));
    assert!(matches!(q.parse_response("not json"), Err(ASRError::InternalError(_))));
}

#[test]
fn test_doubao_response_parsing() {
    let d = DoubaoHttpEngine::new("a".to_string(), "t".to_string());
    let body = "{\"result\":{\"text\":\"hello there!\"}}";
    assert_eq!(d.parse_response(body).unwrap(), "hello there");
    assert!(matches!(d.parse_response("{\"result\":{}}"), Err(ASRError::InternalError(_))));
}

#[test]
fn test_sensevoice_response_parsing() {
    let s = SenseVoiceHttpEngine::new("k".to_string());
    assert_eq!(s.parse_response("{\"text\":\"hi.\"}").unwrap(), "hi");
    assert!(matches!(s.parse_response("{}"), Err(ASRError::InternalError(_))));
}

#[test]
fn test_finish_transcript() {
    assert_eq!(finish_transcript(Some("abc!?".to_string())).unwrap(), "abc");
    assert!(matches!(finish_transcript(None), Err(ASRError::InternalError(_))));
}

#[test]
fn test_endpoints_and_auth_header() {
    assert!(qwen_api_url().starts_with("https://dashscope.aliyuncs.com/"));
    assert!(doubao_api_url().starts_with("https://openspeech.bytedance.com/"));
    assert!(sensevoice_api_url().starts_with("https://api.siliconflow.cn/"));
    assert_eq!(bearer_value("abc"), "Bearer abc");
    assert_eq!(
        qwen_ws_url_with_model("m1"),
        "wss://dashscope.aliyuncs.com/api-ws/v1/realtime?model=m1"
    );
}

#[test]
fn test_request_bodies_escape_credentials() {
    let d = DoubaoHttpEngine::new("app\"x".to_string(), "tok".to_string());
    let body = d.build_request_body(&audio()).unwrap();
    assert!(body.starts_with("{\"user\":{\"uid\":\"app\\\"x\"}"));
    // the body is valid JSON even with a hostile credential
    let v: serde_json::Value = serde_json::from_str(&body).unwrap();
    assert_eq!(v["user"]["uid"], "app\"x");

    let q = QwenHttpEngine::new("k".to_string()).with_model("m\"odel".to_string());
    let body = q.build_request_body(&audio()).unwrap();
    let v: serde_json::Value = serde_json::from_str(&body).unwrap();
    assert_eq!(v["model"], "m\"odel");
}

#[test]
fn test_zero_rate_audio_rejected() {
    // parameters outside the WAV writer's range never reach the encoder
    let bad = AudioData::new(vec![1, 2], 0, 1);
    let q = QwenHttpEngine::new("k".to_string());
    assert!(matches!(q.build_request_body(&bad), Err(ASRError::InvalidAudio(_))));
    let d = DoubaoHttpEngine::new("a".to_string(), "t".to_string());
    assert!(matches!(d.build_request_body(&bad), Err(ASRError::InvalidAudio(_))));
    let s = SenseVoiceHttpEngine::new("k".to_string());
    assert!(matches!(s.build_wav(&bad), Err(ASRError::InvalidAudio(_))));
    let zero_ch = AudioData::new(vec![1, 2], 16000, 0);
    assert!(matches!(q.build_request_body(&zero_ch), Err(ASRError::InvalidAudio(_))));
}

