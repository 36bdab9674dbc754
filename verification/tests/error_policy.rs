use asr_core::join_errors;
use asr_core::ASRError;

#[test]
fn test_retryable_classes() {
    assert!(ASRError::NetworkError("x".to_string()).is_retryable());
    assert!(ASRError::Timeout { timeout_ms: 6000 }.is_retryable());
    assert!(!ASRError::AuthFailed { engine: "qwen".to_string(), message: "m".to_string() }.is_retryable());
    assert!(!ASRError::QuotaExceeded { engine: "qwen".to_string() }.is_retryable());
    assert!(!ASRError::InvalidAudio("x".to_string()).is_retryable());
    assert!(!ASRError::ConfigError("x".to_string()).is_retryable());
    assert!(!ASRError::InternalError("x".to_string()).is_retryable());
    assert!(!ASRError::WebSocketError("x".to_string()).is_retryable());
}

#[test]
fn test_fail_fast_classes() {
    assert!(ASRError::InvalidAudio("x".to_string()).is_fail_fast());
    assert!(ASRError::ConfigError("x".to_string()).is_fail_fast());
    assert!(!ASRError::NetworkError("x".to_string()).is_fail_fast());
    assert!(!ASRError::Timeout { timeout_ms: 1 }.is_fail_fast());
    assert!(!ASRError::QuotaExceeded { engine: "e".to_string() }.is_fail_fast());
}

#[test]
fn test_messages() {
    assert_eq!(ASRError::NetworkError("down".to_string()).message(), "network error: down");
    assert_eq!(
        ASRError::AuthFailed { engine: "qwen".to_string(), message: "denied".to_string() }.message(),
        "auth failed (qwen): denied"
    );
    assert_eq!(
        ASRError::QuotaExceeded { engine: "doubao".to_string() }.message(),
        "quota exceeded (doubao)"
    );
    assert_eq!(ASRError::InvalidAudio("empty".to_string()).message(), "invalid audio: empty");
    assert_eq!(
        ASRError::Timeout { timeout_ms: 6000 }.message(),
        "request timed out after 6000ms"
    );
    assert_eq!(ASRError::WebSocketError("gone".to_string()).message(), "websocket error: gone");
    assert_eq!(ASRError::NotInitialized.message(), "engine not initialized");
    assert_eq!(
        ASRError::UnsupportedOperation("http".to_string()).message(),
        "unsupported operation: http"
    );
    assert_eq!(ASRError::ConfigError("no key".to_string()).message(), "configuration error: no key");
    assert_eq!(ASRError::InternalError("parse".to_string()).message(), "internal error: parse");
    assert_eq!(
        ASRError::AllEnginesFailed {
            primary_error: "p".to_string(),
            fallback_error: Some("f".to_string())
        }
        .message(),
        "all engines failed: primary=p, fallback=f"
    );
    assert_eq!(
        ASRError::AllEnginesFailed { primary_error: "p".to_string(), fallback_error: None }.message(),
        "all engines failed: primary=p, no fallback"
    );
}

#[test]
fn test_join_errors() {
    assert_eq!(join_errors(&vec![]), "");
    assert_eq!(join_errors(&vec!["a".to_string()]), "a");
    assert_eq!(
        join_errors(&vec!["a".to_string(), "b".to_string(), "c".to_string()]),
        "a; b; c"
    );
}
