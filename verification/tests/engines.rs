use asr_core::create_engine;
use asr_core::create_engine_by_type;
use asr_core::ASRError;
use asr_core::ASRMode;
use asr_core::ASRProviderConfig;
use asr_core::AudioData;
use asr_core::DoubaoHttpEngine;
use asr_core::DoubaoRealtimeEngine;
use asr_core::EngineCredentials;
use asr_core::EngineType;
use asr_core::QwenHttpEngine;
use asr_core::QwenRealtimeEngine;
use asr_core::SenseVoiceHttpEngine;
use asr_core::ASREngine;

fn empty_audio() -> AudioData {
    AudioData::new(Vec::new(), 16000, 1)
}

fn some_audio() -> AudioData {
    AudioData::new(vec![0, 1, -1, 2], 16000, 1)
}

fn all_engines() -> Vec<ASREngine> {
    vec![
        ASREngine::QwenHttp(QwenHttpEngine::new("k".to_string())),
        ASREngine::DoubaoHttp(DoubaoHttpEngine::new("a".to_string(), "t".to_string())),
        ASREngine::SenseVoiceHttp(SenseVoiceHttpEngine::new("k".to_string())),
        ASREngine::QwenRealtime(QwenRealtimeEngine::new("k".to_string())),
        ASREngine::DoubaoRealtime(DoubaoRealtimeEngine::new("a".to_string(), "t".to_string())),
    ]
}

#[test]
fn test_empty_audio_rejected_before_any_work() {
    for engine in all_engines() {
        match engine.one_shot_precheck(&empty_audio()) {
            Err(ASRError::InvalidAudio(_)) => {
                assert!(matches!(engine.supported_modes()[0], ASRMode::Http));
            }
            Err(ASRError::UnsupportedOperation(_)) => {
                assert!(matches!(engine.supported_modes()[0], ASRMode::Realtime));
            }
            other => panic!("empty audio must never be accepted: {:?}", other),
        }
    }
    // the request builders reject empty audio as well, so no body ever
    // exists to send
    let q = QwenHttpEngine::new("k".to_string());
    assert!(matches!(q.build_request_body(&empty_audio()), Err(ASRError::InvalidAudio(_))));
    let d = DoubaoHttpEngine::new("a".to_string(), "t".to_string());
    assert!(matches!(d.build_request_body(&empty_audio()), Err(ASRError::InvalidAudio(_))));
    let s = SenseVoiceHttpEngine::new("k".to_string());
    assert!(matches!(s.build_wav(&empty_audio()), Err(ASRError::InvalidAudio(_))));
}

#[test]
fn test_names_and_modes() {
    let engines = all_engines();
    let names: Vec<&str> = engines.iter().map(|e| e.name()).collect();
    assert_eq!(names, vec!["qwen", "doubao", "sensevoice", "qwen", "doubao"]);
    assert!(engines[0].supports_mode(ASRMode::Http));
    assert!(!engines[0].supports_mode(ASRMode::Realtime));
    assert!(engines[3].supports_mode(ASRMode::Realtime));
    assert!(!engines[3].supports_mode(ASRMode::Http));
    assert!(engines[0].realtime_precheck().is_err());
    assert!(engines[3].realtime_precheck().is_ok());
    assert!(engines[0].one_shot_precheck(&some_audio()).is_ok());
}

fn config(provider: EngineType, mode: ASRMode) -> ASRProviderConfig {
    ASRProviderConfig {
        provider,
        mode,
        dashscope_api_key: None,
        app_id: None,
        access_token: None,
        siliconflow_api_key: None,
        model: None,
    }
}

#[test]
fn test_create_engine_validates_credentials() {
    // every missing credential fails closed with a configuration error
    assert!(matches!(
        create_engine(&config(EngineType::Qwen, ASRMode::Http)),
        Err(ASRError::ConfigError(_))
    ));
    assert!(matches!(
        create_engine(&config(EngineType::Doubao, ASRMode::Realtime)),
        Err(ASRError::ConfigError(_))
    ));
    let mut half = config(EngineType::Doubao, ASRMode::Http);
    half.app_id = Some("a".to_string());
    assert!(matches!(create_engine(&half), Err(ASRError::ConfigError(_))));
    assert!(matches!(
        create_engine(&config(EngineType::SenseVoice, ASRMode::Http)),
        Err(ASRError::ConfigError(_))
    ));
}

#[test]
fn test_create_engine_picks_the_right_variant() {
    let mut c = config(EngineType::Qwen, ASRMode::Http);
    c.dashscope_api_key = Some("k".to_string());
    assert!(matches!(create_engine(&c).unwrap(), ASREngine::QwenHttp(_)));
    c.mode = ASRMode::Realtime;
    assert!(matches!(create_engine(&c).unwrap(), ASREngine::QwenRealtime(_)));

    let mut c = config(EngineType::Doubao, ASRMode::Http);
    c.app_id = Some("a".to_string());
    c.access_token = Some("t".to_string());
    assert!(matches!(create_engine(&c).unwrap(), ASREngine::DoubaoHttp(_)));
    c.mode = ASRMode::Realtime;
    assert!(matches!(create_engine(&c).unwrap(), ASREngine::DoubaoRealtime(_)));

    // the multipart provider only speaks HTTP, whatever the mode says
    let mut c = config(EngineType::SenseVoice, ASRMode::Realtime);
    c.siliconflow_api_key = Some("k".to_string());
    assert!(matches!(create_engine(&c).unwrap(), ASREngine::SenseVoiceHttp(_)));
}

#[test]
fn test_create_engine_by_type() {
    let e = create_engine_by_type(
        EngineType::Qwen,
        EngineCredentials::with_api_key("k".to_string()),
        ASRMode::Http,
    )
    .unwrap();
    assert!(matches!(e, ASREngine::QwenHttp(_)));

    let e = create_engine_by_type(
        EngineType::Doubao,
        EngineCredentials::with_doubao("a".to_string(), "t".to_string()),
        ASRMode::Realtime,
    )
    .unwrap();
    assert!(matches!(e, ASREngine::DoubaoRealtime(_)));

    assert!(matches!(
        create_engine_by_type(EngineType::Doubao, EngineCredentials::with_api_key("k".to_string()), ASRMode::Http),
        Err(ASRError::ConfigError(_))
    ));
}

#[test]
fn test_default_models() {
    let q = QwenHttpEngine::new("k".to_string());
    assert_eq!(q.model, "qwen3-asr-flash");
    let q = q.with_model("other".to_string());
    assert_eq!(q.model, "other");
    let s = SenseVoiceHttpEngine::new("k".to_string());
    assert_eq!(s.model, "FunAudioLLM/SenseVoiceSmall");
    let r = QwenRealtimeEngine::new("k".to_string());
    assert_eq!(r.model, "qwen3-asr-flash-realtime");
}
