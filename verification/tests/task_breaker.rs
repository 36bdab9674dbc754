use asr_core::ASRError;
use asr_core::RealtimeTaskResult;
use asr_core::RealtimeTaskState;
use asr_core::TranscriptionResult;
use asr_core::MAX_CONSECUTIVE_SEND_FAILURES;

#[test]
fn test_circuit_breaker_trips_on_fifth_failure() {
    assert_eq!(MAX_CONSECUTIVE_SEND_FAILURES, 5);
    let mut state = RealtimeTaskState::new("doubao".to_string());
    for i in 1..=5u32 {
        state.on_chunk(160);
        let aborted = state.on_send_error("pipe broken".to_string());
        if i < 5 {
            assert!(aborted.is_none(), "aborted early at failure {}", i);
        } else {
            match aborted {
                Some(RealtimeTaskResult::Failed { error, engine_name, chunks_sent, samples_sent }) => {
                    assert!(matches!(error, ASRError::WebSocketError(_)));
                    assert_eq!(engine_name, "doubao");
                    assert_eq!(chunks_sent, 5);
                    assert_eq!(samples_sent, 800);
                }
                other => panic!("expected the abort record, got {:?}", other),
            }
        }
    }
}

#[test]
fn test_successful_send_resets_the_streak() {
    let mut state = RealtimeTaskState::new("qwen".to_string());
    for _ in 0..4 {
        state.on_chunk(10);
        assert!(state.on_send_error("x".to_string()).is_none());
    }
    state.on_chunk(10);
    state.on_send_ok();
    for _ in 0..4 {
        state.on_chunk(10);
        assert!(state.on_send_error("x".to_string()).is_none());
    }
}

#[test]
fn test_close_outcomes() {
    let state = RealtimeTaskState::new("doubao".to_string());
    match state.on_closed(Ok("final text".to_string()), 1234) {
        RealtimeTaskResult::Success(tr) => {
            assert_eq!(tr.text, "final text");
            assert_eq!(tr.engine, "doubao");
            assert!(!tr.used_fallback);
            assert_eq!(tr.duration_ms, 1234);
        }
        other => panic!("expected success, got {:?}", other),
    }

    let mut state = RealtimeTaskState::new("doubao".to_string());
    state.on_chunk(100);
    match state.on_closed(Err(ASRError::Timeout { timeout_ms: 10000 }), 99) {
        RealtimeTaskResult::Failed { error, chunks_sent, samples_sent, .. } => {
            assert!(matches!(error, ASRError::Timeout { timeout_ms: 10000 }));
            assert_eq!(chunks_sent, 1);
            assert_eq!(samples_sent, 100);
        }
        other => panic!("expected the failure record, got {:?}", other),
    }
}

#[test]
fn test_task_result_accessors() {
    let ok = RealtimeTaskResult::Success(TranscriptionResult::new(
        "t".to_string(),
        "qwen".to_string(),
        false,
        7,
    ));
    assert!(ok.is_success());
    assert!(ok.error().is_none());
    assert!(ok.into_result().is_ok());

    let bad = RealtimeTaskResult::Failed {
        error: ASRError::NotInitialized,
        engine_name: "qwen".to_string(),
        chunks_sent: 0,
        samples_sent: 0,
    };
    assert!(!bad.is_success());
    assert!(bad.error().is_some());
    assert!(matches!(bad.into_result(), Err(ASRError::NotInitialized)));
}
