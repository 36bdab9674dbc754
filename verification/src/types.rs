//! The data model of the recognition core: transport modes, provider
//! identities, credentials, provider configuration, audio buffers, and the
//! result records handed back to callers.

use vstd::prelude::*;

verus! {

/// The two transport modes an engine can offer.
#[derive(Debug, Clone, Copy, PartialEq, Eq, Structural)]
pub enum ASRMode {
    Realtime,
    Http,
}

impl ASRMode {
    /// The lower-case identifier of the mode.
    pub fn as_str(&self) -> (r: &'static str)
        ensures
            *self is Realtime ==> r@ == "realtime"@,
            *self is Http ==> r@ == "http"@,
    {
        match self {
            ASRMode::Realtime => "realtime",
            ASRMode::Http => "http",
        }
    }
}

/// The closed set of providers the core can talk to.
#[derive(Debug, Clone, Copy, PartialEq, Eq, Structural)]
pub enum EngineType {
    Qwen,
    Doubao,
    SenseVoice,
}

impl EngineType {
    /// The lower-case identifier of the provider.
    pub fn as_str(&self) -> (r: &'static str)
        ensures
            *self is Qwen ==> r@ == "qwen"@,
            *self is Doubao ==> r@ == "doubao"@,
            *self is SenseVoice ==> r@ == "sensevoice"@,
    {
        match self {
            EngineType::Qwen => "qwen",
            EngineType::Doubao => "doubao",
            EngineType::SenseVoice => "sensevoice",
        }
    }
}

/// The retry policy shared by all engines: `max_retries` additional
/// attempts beyond the first, pure exponential backoff from
/// `base_delay_ms`, and a per-attempt network timeout.
#[derive(Debug, Clone, Copy, PartialEq, Eq, Structural)]
pub struct RetryConfig {
    pub max_retries: u32,
    pub base_delay_ms: u64,
    pub timeout_ms: u64,
}

impl RetryConfig {
    /// The whole backoff schedule stays within the machine's range.
    pub open spec fn wf(self) -> bool {
        &&& self.max_retries < 64
        &&& (self.max_retries == 0 || self.base_delay_ms * vstd::arithmetic::power2::pow2(
            (self.max_retries - 1) as nat,
        ) <= u64::MAX)
    }
}

impl Default for RetryConfig {
    /// The default policy: 2 retries, 500 ms base delay, 6000 ms timeout.
    fn default() -> (r: Self)
        ensures
            r == (RetryConfig { max_retries: 2, base_delay_ms: 500, timeout_ms: 6000 }),
            r.wf(),
    {
        proof {
            vstd::arithmetic::power2::lemma2_to64();
        }
        RetryConfig { max_retries: 2, base_delay_ms: 500, timeout_ms: 6000 }
    }
}

/// One successful transcription, tagged with the engine that answered and
/// whether it was the fallback.
#[derive(Debug, Clone)]
pub struct TranscriptionResult {
    pub text: String,
    pub engine: String,
    pub used_fallback: bool,
    pub duration_ms: u64,
}

impl TranscriptionResult {
    pub fn new(text: String, engine: String, used_fallback: bool, duration_ms: u64) -> (r: Self)
        ensures
            r.text == text,
            r.engine == engine,
            r.used_fallback == used_fallback,
            r.duration_ms == duration_ms,
    {
        Self { text, engine, used_fallback, duration_ms }
    }
}

/// An incremental, possibly-revised transcript surfaced before a streaming
/// session closes.
#[derive(Debug, Clone)]
pub struct PartialTranscription {
    pub text: String,
    pub is_final: bool,
}

impl PartialTranscription {
    pub fn new(text: String, is_final: bool) -> (r: Self)
        ensures
            r.text == text,
            r.is_final == is_final,
    {
        Self { text, is_final }
    }
}

/// The credential material an engine may need: a single API key, or the
/// app-id/access-token pair.
#[derive(Debug, Clone)]
pub struct EngineCredentials {
    pub api_key: Option<String>,
    pub app_id: Option<String>,
    pub access_token: Option<String>,
}

impl Default for EngineCredentials {
    fn default() -> (r: Self)
        ensures
            r.api_key is None,
            r.app_id is None,
            r.access_token is None,
    {
        Self { api_key: None, app_id: None, access_token: None }
    }
}

impl EngineCredentials {
    /// Credentials of the single-key providers.
    pub fn with_api_key(api_key: String) -> (r: Self)
        ensures
            r.api_key == Some(api_key),
            r.app_id is None,
            r.access_token is None,
    {
        Self { api_key: Some(api_key), app_id: None, access_token: None }
    }

    /// Credentials of the app-id/access-token provider.
    pub fn with_doubao(app_id: String, access_token: String) -> (r: Self)
        ensures
            r.api_key is None,
            r.app_id == Some(app_id),
            r.access_token == Some(access_token),
    {
        Self { api_key: None, app_id: Some(app_id), access_token: Some(access_token) }
    }
}

/// External configuration of one provider engine: identity, transport mode,
/// the credential fields, and an optional model override.
#[derive(Debug, Clone)]
pub struct ASRProviderConfig {
    pub provider: EngineType,
    pub mode: ASRMode,
    pub dashscope_api_key: Option<String>,
    pub app_id: Option<String>,
    pub access_token: Option<String>,
    pub siliconflow_api_key: Option<String>,
    pub model: Option<String>,
}

impl ASRProviderConfig {
    /// Exactly the credential fields required by the chosen provider are
    /// present.
    pub open spec fn spec_valid(self) -> bool {
        match self.provider {
            EngineType::Qwen => self.dashscope_api_key is Some,
            EngineType::Doubao => self.app_id is Some && self.access_token is Some,
            EngineType::SenseVoice => self.siliconflow_api_key is Some,
        }
    }

    /// Check that the credentials required by the provider are present;
    /// validation fails closed when a field is missing.
    pub fn validate(&self) -> (r: Result<(), String>)
        ensures
            r is Ok <==> self.spec_valid(),
    {
        match self.provider {
            EngineType::Qwen => {
                if self.dashscope_api_key.is_some() {
                    Ok(())
                } else {
                    Err("missing dashscope_api_key".to_owned())
                }
            },
            EngineType::Doubao => {
                if self.app_id.is_none() {
                    Err("missing app_id".to_owned())
                } else if self.access_token.is_none() {
                    Err("missing access_token".to_owned())
                } else {
                    Ok(())
                }
            },
            EngineType::SenseVoice => {
                if self.siliconflow_api_key.is_some() {
                    Ok(())
                } else {
                    Err("missing siliconflow_api_key".to_owned())
                }
            },
        }
    }
}

/// Configuration of one `transcribe` pipeline: the primary engine, the
/// optional fallback engine, and whether the fallback may be used.
#[derive(Debug, Clone)]
pub struct ASRConfig {
    pub primary: ASRProviderConfig,
    pub fallback: Option<ASRProviderConfig>,
    pub enable_fallback: bool,
}

/// An immutable audio buffer as the core consumes it: PCM16 samples with
/// their sample rate and channel count.
#[derive(Debug, Clone)]
pub struct AudioData {
    pub samples: Vec<i16>,
    pub sample_rate: u32,
    pub channels: u16,
}

impl AudioData {
    pub fn new(samples: Vec<i16>, sample_rate: u32, channels: u16) -> (r: Self)
        ensures
            r.samples == samples,
            r.sample_rate == sample_rate,
            r.channels == channels,
    {
        Self { samples, sample_rate, channels }
    }

    /// Whether the buffer holds no samples at all.
    pub fn is_empty(&self) -> (r: bool)
        ensures
            r == (self.samples@.len() == 0),
    {
        self.samples.len() == 0
    }
}

} // verus!
