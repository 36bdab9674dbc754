//! The engine capability layer: one variant per provider-and-transport
//! pair, dispatched as a closed union so that adding a provider is an
//! exhaustiveness-checked change.

use vstd::prelude::*;

use crate::errors::ASRError;
use crate::types::ASRMode;
use crate::types::ASRProviderConfig;
use crate::types::AudioData;
use crate::types::EngineCredentials;
use crate::types::EngineType;
use crate::types::RetryConfig;

verus! {

/// One-shot engine for the Qwen multimodal-generation endpoint.
#[derive(Debug, Clone)]
pub struct QwenHttpEngine {
    pub api_key: String,
    pub retry_config: RetryConfig,
    pub model: String,
}

impl QwenHttpEngine {
    pub fn new(api_key: String) -> (r: Self)
        ensures
            r.api_key == api_key,
            r.retry_config == (RetryConfig { max_retries: 2, base_delay_ms: 500, timeout_ms: 6000 }),
            r.model@ == "qwen3-asr-flash"@,
    {
        Self::with_config(api_key, RetryConfig::default())
    }

    pub fn with_config(api_key: String, retry_config: RetryConfig) -> (r: Self)
        ensures
            r.api_key == api_key,
            r.retry_config == retry_config,
            r.model@ == "qwen3-asr-flash"@,
    {
        Self { api_key, retry_config, model: "qwen3-asr-flash".to_owned() }
    }

    pub fn with_model(self, model: String) -> (r: Self)
        ensures
            r.api_key == self.api_key,
            r.retry_config == self.retry_config,
            r.model == model,
    {
        Self { model, ..self }
    }
}

/// One-shot engine for the Doubao flash-recognize endpoint.
#[derive(Debug, Clone)]
pub struct DoubaoHttpEngine {
    pub app_id: String,
    pub access_key: String,
    pub retry_config: RetryConfig,
}

impl DoubaoHttpEngine {
    pub fn new(app_id: String, access_key: String) -> (r: Self)
        ensures
            r.app_id == app_id,
            r.access_key == access_key,
            r.retry_config == (RetryConfig { max_retries: 2, base_delay_ms: 500, timeout_ms: 6000 }),
    {
        Self::with_config(app_id, access_key, RetryConfig::default())
    }

    pub fn with_config(app_id: String, access_key: String, retry_config: RetryConfig) -> (r: Self)
        ensures
            r.app_id == app_id,
            r.access_key == access_key,
            r.retry_config == retry_config,
    {
        Self { app_id, access_key, retry_config }
    }
}

/// One-shot engine for the SenseVoice multipart-upload endpoint.
#[derive(Debug, Clone)]
pub struct SenseVoiceHttpEngine {
    pub api_key: String,
    pub retry_config: RetryConfig,
    pub model: String,
}

impl SenseVoiceHttpEngine {
    pub fn new(api_key: String) -> (r: Self)
        ensures
            r.api_key == api_key,
            r.retry_config == (RetryConfig { max_retries: 2, base_delay_ms: 500, timeout_ms: 6000 }),
            r.model@ == "FunAudioLLM/SenseVoiceSmall"@,
    {
        Self::with_config(api_key, RetryConfig::default())
    }

    pub fn with_config(api_key: String, retry_config: RetryConfig) -> (r: Self)
        ensures
            r.api_key == api_key,
            r.retry_config == retry_config,
            r.model@ == "FunAudioLLM/SenseVoiceSmall"@,
    {
        Self { api_key, retry_config, model: "FunAudioLLM/SenseVoiceSmall".to_owned() }
    }

    pub fn with_model(self, model: String) -> (r: Self)
        ensures
            r.api_key == self.api_key,
            r.retry_config == self.retry_config,
            r.model == model,
    {
        Self { model, ..self }
    }
}

/// Streaming engine for the Qwen JSON event socket.
#[derive(Debug, Clone)]
pub struct QwenRealtimeEngine {
    pub api_key: String,
    pub model: String,
    pub retry_config: RetryConfig,
}

impl QwenRealtimeEngine {
    pub fn new(api_key: String) -> (r: Self)
        ensures
            r.api_key == api_key,
            r.model@ == "qwen3-asr-flash-realtime"@,
            r.retry_config == (RetryConfig { max_retries: 2, base_delay_ms: 500, timeout_ms: 6000 }),
    {
        Self {
            api_key,
            model: "qwen3-asr-flash-realtime".to_owned(),
            retry_config: RetryConfig::default(),
        }
    }

    pub fn with_model(self, model: String) -> (r: Self)
        ensures
            r.api_key == self.api_key,
            r.model == model,
            r.retry_config == self.retry_config,
    {
        Self { model, ..self }
    }
}

/// Streaming engine for the Doubao binary framed socket.
#[derive(Debug, Clone)]
pub struct DoubaoRealtimeEngine {
    pub app_id: String,
    pub access_key: String,
    pub retry_config: RetryConfig,
}

impl DoubaoRealtimeEngine {
    pub fn new(app_id: String, access_key: String) -> (r: Self)
        ensures
            r.app_id == app_id,
            r.access_key == access_key,
            r.retry_config == (RetryConfig { max_retries: 2, base_delay_ms: 500, timeout_ms: 6000 }),
    {
        Self { app_id, access_key, retry_config: RetryConfig::default() }
    }
}

/// The capability union: every provider-and-mode pair the core can drive.
#[derive(Debug, Clone)]
pub enum ASREngine {
    QwenHttp(QwenHttpEngine),
    DoubaoHttp(DoubaoHttpEngine),
    SenseVoiceHttp(SenseVoiceHttpEngine),
    QwenRealtime(QwenRealtimeEngine),
    DoubaoRealtime(DoubaoRealtimeEngine),
}

impl ASREngine {
    /// The provider identity behind the engine.
    pub open spec fn spec_provider(self) -> EngineType {
        match self {
            ASREngine::QwenHttp(_) => EngineType::Qwen,
            ASREngine::QwenRealtime(_) => EngineType::Qwen,
            ASREngine::DoubaoHttp(_) => EngineType::Doubao,
            ASREngine::DoubaoRealtime(_) => EngineType::Doubao,
            ASREngine::SenseVoiceHttp(_) => EngineType::SenseVoice,
        }
    }

    /// The one transport mode the engine offers.
    pub open spec fn spec_mode(self) -> ASRMode {
        match self {
            ASREngine::QwenHttp(_) => ASRMode::Http,
            ASREngine::DoubaoHttp(_) => ASRMode::Http,
            ASREngine::SenseVoiceHttp(_) => ASRMode::Http,
            ASREngine::QwenRealtime(_) => ASRMode::Realtime,
            ASREngine::DoubaoRealtime(_) => ASRMode::Realtime,
        }
    }

    /// The engine's provider name, as results and errors report it.
    pub fn name(&self) -> (r: &'static str)
        ensures
            self.spec_provider() is Qwen ==> r@ == "qwen"@,
            self.spec_provider() is Doubao ==> r@ == "doubao"@,
            self.spec_provider() is SenseVoice ==> r@ == "sensevoice"@,
    {
        match self {
            ASREngine::QwenHttp(_) => "qwen",
            ASREngine::QwenRealtime(_) => "qwen",
            ASREngine::DoubaoHttp(_) => "doubao",
            ASREngine::DoubaoRealtime(_) => "doubao",
            ASREngine::SenseVoiceHttp(_) => "sensevoice",
        }
    }

    /// Every engine offers exactly one transport mode.
    pub fn supported_modes(&self) -> (r: Vec<ASRMode>)
        ensures
            r@ == seq![self.spec_mode()],
    {
        let mut v: Vec<ASRMode> = Vec::new();
        match self {
            ASREngine::QwenHttp(_) => v.push(ASRMode::Http),
            ASREngine::DoubaoHttp(_) => v.push(ASRMode::Http),
            ASREngine::SenseVoiceHttp(_) => v.push(ASRMode::Http),
            ASREngine::QwenRealtime(_) => v.push(ASRMode::Realtime),
            ASREngine::DoubaoRealtime(_) => v.push(ASRMode::Realtime),
        }
        proof {
            assert(v@ == seq![self.spec_mode()]);
        }
        v
    }

    /// Whether the engine can serve the given transport mode.
    pub fn supports_mode(&self, mode: ASRMode) -> (r: bool)
        ensures
            r == (mode == self.spec_mode()),
    {
        mode == self.supported_modes_first()
    }

    fn supported_modes_first(&self) -> (r: ASRMode)
        ensures
            r == self.spec_mode(),
    {
        match self {
            ASREngine::QwenHttp(_) => ASRMode::Http,
            ASREngine::DoubaoHttp(_) => ASRMode::Http,
            ASREngine::SenseVoiceHttp(_) => ASRMode::Http,
            ASREngine::QwenRealtime(_) => ASRMode::Realtime,
            ASREngine::DoubaoRealtime(_) => ASRMode::Realtime,
        }
    }

    /// The entry check of every one-shot transcription: a streaming-only engine
    /// fails with an unsupported-operation error, and empty audio is
    /// rejected at once with an invalid-audio error, before any network
    /// work could start.
    pub fn one_shot_precheck(&self, audio: &AudioData) -> (r: Result<(), ASRError>)
        ensures
            self.spec_mode() is Realtime ==> (r matches Err(e) && e is UnsupportedOperation),
            self.spec_mode() is Http && audio.samples@.len() == 0 ==> (r matches Err(e)
                && e is InvalidAudio),
            self.spec_mode() is Http && audio.samples@.len() > 0 ==> r is Ok,
    {
        match self {
            ASREngine::QwenRealtime(_) | ASREngine::DoubaoRealtime(_) => Err(
                ASRError::UnsupportedOperation(
                    "streaming-only engine cannot serve a one-shot request".to_owned(),
                ),
            ),
            _ => {
                if audio.is_empty() {
                    Err(ASRError::InvalidAudio("audio buffer is empty".to_owned()))
                } else {
                    Ok(())
                }
            },
        }
    }

    /// The entry check of session creation: a one-shot engine cannot open a
    /// streaming session.
    pub fn realtime_precheck(&self) -> (r: Result<(), ASRError>)
        ensures
            self.spec_mode() is Http ==> (r matches Err(e) && e is UnsupportedOperation),
            self.spec_mode() is Realtime ==> r is Ok,
    {
        match self {
            ASREngine::QwenRealtime(_) | ASREngine::DoubaoRealtime(_) => Ok(()),
            _ => Err(
                ASRError::UnsupportedOperation(
                    "one-shot engine cannot open a streaming session".to_owned(),
                ),
            ),
        }
    }
}

/// Build the engine an external provider configuration asks for;
/// validation fails closed when a required credential is missing.
pub fn create_engine(config: &ASRProviderConfig) -> (r: Result<ASREngine, ASRError>)
    ensures
        !config.spec_valid() ==> (r matches Err(e) && e is ConfigError),
        config.spec_valid() ==> (r matches Ok(engine) && engine.spec_provider() == config.provider
            && (config.provider is SenseVoice || engine.spec_mode() == config.mode) && (
        config.provider is SenseVoice ==> engine.spec_mode() is Http)),
{
    match config.validate() {
        Ok(_) => {},
        Err(msg) => {
            return Err(ASRError::ConfigError(msg));
        },
    }
    match config.provider {
        EngineType::Qwen => {
            let api_key = match &config.dashscope_api_key {
                Some(k) => k.clone(),
                None => {
                    return Err(ASRError::ConfigError("missing dashscope_api_key".to_owned()));
                },
            };
            match config.mode {
                ASRMode::Http => Ok(ASREngine::QwenHttp(QwenHttpEngine::new(api_key))),
                ASRMode::Realtime => Ok(ASREngine::QwenRealtime(QwenRealtimeEngine::new(api_key))),
            }
        },
        EngineType::Doubao => {
            let app_id = match &config.app_id {
                Some(a) => a.clone(),
                None => {
                    return Err(ASRError::ConfigError("missing app_id".to_owned()));
                },
            };
            let access_token = match &config.access_token {
                Some(t) => t.clone(),
                None => {
                    return Err(ASRError::ConfigError("missing access_token".to_owned()));
                },
            };
            match config.mode {
                ASRMode::Http => Ok(
                    ASREngine::DoubaoHttp(DoubaoHttpEngine::new(app_id, access_token)),
                ),
                ASRMode::Realtime => Ok(
                    ASREngine::DoubaoRealtime(DoubaoRealtimeEngine::new(app_id, access_token)),
                ),
            }
        },
        EngineType::SenseVoice => {
            let api_key = match &config.siliconflow_api_key {
                Some(k) => k.clone(),
                None => {
                    return Err(ASRError::ConfigError("missing siliconflow_api_key".to_owned()));
                },
            };
            Ok(ASREngine::SenseVoiceHttp(SenseVoiceHttpEngine::new(api_key)))
        },
    }
}

/// Build an engine from a provider identity, loose credentials and a mode;
/// fails closed when the provider's credential fields are absent.
pub fn create_engine_by_type(
    engine_type: EngineType,
    credentials: EngineCredentials,
    mode: ASRMode,
) -> (r: Result<ASREngine, ASRError>)
    ensures
        r matches Ok(engine) ==> (engine.spec_provider() == engine_type && (engine_type
            is SenseVoice || engine.spec_mode() == mode)),
        engine_type is Qwen ==> (r is Ok <==> credentials.api_key is Some),
        engine_type is Doubao ==> (r is Ok <==> credentials.app_id is Some
            && credentials.access_token is Some),
        engine_type is SenseVoice ==> (r is Ok <==> credentials.api_key is Some),
        r matches Err(e) ==> (e is ConfigError),
{
    match engine_type {
        EngineType::Qwen => {
            let api_key = match credentials.api_key {
                Some(k) => k,
                None => {
                    return Err(ASRError::ConfigError("missing API key".to_owned()));
                },
            };
            match mode {
                ASRMode::Http => Ok(ASREngine::QwenHttp(QwenHttpEngine::new(api_key))),
                ASRMode::Realtime => Ok(ASREngine::QwenRealtime(QwenRealtimeEngine::new(api_key))),
            }
        },
        EngineType::Doubao => {
            let app_id = match credentials.app_id {
                Some(a) => a,
                None => {
                    return Err(ASRError::ConfigError("missing app_id".to_owned()));
                },
            };
            let access_token = match credentials.access_token {
                Some(t) => t,
                None => {
                    return Err(ASRError::ConfigError("missing access_token".to_owned()));
                },
            };
            match mode {
                ASRMode::Http => Ok(
                    ASREngine::DoubaoHttp(DoubaoHttpEngine::new(app_id, access_token)),
                ),
                ASRMode::Realtime => Ok(
                    ASREngine::DoubaoRealtime(DoubaoRealtimeEngine::new(app_id, access_token)),
                ),
            }
        },
        EngineType::SenseVoice => {
            let api_key = match credentials.api_key {
                Some(k) => k,
                None => {
                    return Err(ASRError::ConfigError("missing API key".to_owned()));
                },
            };
            Ok(ASREngine::SenseVoiceHttp(SenseVoiceHttpEngine::new(api_key)))
        },
    }
}

} // verus!
