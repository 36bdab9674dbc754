//! The one-shot HTTP pipeline of the three providers: request bodies and
//! endpoint facts, the status-outcome taxonomy, transcript extraction,
//! and the shared terminal normalization. The network exchange itself
//! lives outside; everything before and after it is verified, and each
//! provider's response path is a named deterministic extraction.

use vstd::prelude::*;

use crate::b64::b64_of;
use crate::b64::base64_encode;
use crate::encoder::encode_to_wav;
use crate::encoder::spec_wav_params_ok;
use crate::encoder::wav_bytes_of;
use crate::encoder::EncodingError;
use crate::engine::DoubaoHttpEngine;
use crate::engine::QwenHttpEngine;
use crate::engine::SenseVoiceHttpEngine;
use crate::errors::ASRError;
use crate::session::doubao_response_text;
use crate::session::doubao_text_of;
use crate::text::json_escape;
use crate::text::spec_json_escaped;
use crate::text::spec_strip_trailing;
use crate::text::str_eq;
use crate::text::strip_trailing_punctuation;
use crate::types::AudioData;

verus! {

/// Audio beyond this WAV size cannot be embedded in a request body.
pub const MAX_EMBEDDED_WAV_BYTES: usize = 0xffffffff;

/// Whether a buffer's parameters are inside the 16-bit WAV writer's
/// range; outside it the encoder cannot be asked to run.
pub fn wav_params_ok(audio: &AudioData) -> (r: bool)
    ensures
        r == spec_wav_params_ok(audio.samples@.len(), audio.sample_rate, audio.channels, 16),
{
    if audio.sample_rate == 0 || audio.channels == 0 {
        return false;
    }
    proof {
        assert((audio.sample_rate as u64) * 2 * (audio.channels as u64)
            < 0x8000000000000000u64) by (nonlinear_arith)
            requires
                audio.sample_rate as u64 <= 0xffffffffu64,
                audio.channels as u64 <= 0xffffu64,
        ;
    }
    let byte_rate_ok = (audio.sample_rate as u64) * 2 * (audio.channels as u64) <= 0xffffffffu64;
    let data_ok = (audio.samples.len() as u64) <= 2147483613u64;
    proof {
        assert(byte_rate_ok == ((audio.sample_rate as int) * 2 * (audio.channels as int)
            <= 0xffffffff));
        assert(data_ok == (2 * audio.samples@.len() + 68 <= 0xffffffff));
    }
    byte_rate_ok && data_ok
}

/// The terminal normalization of every one-shot transcript: trailing
/// sentence punctuation is stripped once, before the text leaves the
/// engine; a response with no transcript at all is an internal error.
pub fn finish_transcript(raw: Option<String>) -> (r: Result<String, ASRError>)
    ensures
        raw matches Some(t) ==> (r matches Ok(out) && out@ == spec_strip_trailing(t@)),
        raw is None ==> (r matches Err(e) && e is InternalError),
{
    match raw {
        Some(t) => {
            let mut out = t;
            strip_trailing_punctuation(&mut out);
            Ok(out)
        },
        None => Err(ASRError::InternalError("response carried no transcript".to_owned())),
    }
}

/// The bearer authorization header value for a key.
pub fn bearer_value(key: &str) -> (r: String)
    ensures
        r@ == "Bearer "@ + key@,
{
    "Bearer ".to_owned().concat(key)
}

// ---------------------------------------------------------------------
// Qwen: multimodal-generation endpoint
// ---------------------------------------------------------------------

pub fn qwen_api_url() -> (r: &'static str)
    ensures
        r@ == "https://dashscope.aliyuncs.com/api/v1/services/aigc/multimodal-generation/generation"@,
{
    "https://dashscope.aliyuncs.com/api/v1/services/aigc/multimodal-generation/generation"
}

/// The JSON body of one Qwen request: the model, a fixed system/user
/// message structure, and the WAV bytes as a base64 data URI.
pub open spec fn spec_qwen_http_body(model: Seq<char>, audio_b64: Seq<char>) -> Seq<char> {
    "{\"model\":\""@ + spec_json_escaped(model)
        + "\",\"input\":{\"messages\":[{\"role\":\"system\",\"content\":[{\"text\":\"\"}]},{\"role\":\"user\",\"content\":[{\"audio\":\"data:audio/wav;base64,"@
        + audio_b64
        + "\"}]}]},\"parameters\":{\"result_format\":\"message\",\"enable_itn\":false,\"disfluency_removal\":true,\"language\":\"zh\"}}"@
}

/// The transcript a Qwen response body carries at
/// `output.choices[0].message.content[0].text`, if any — a function of
/// the body text alone.
pub uninterp spec fn qwen_text_of(body: Seq<char>) -> Option<Seq<char>>;

/// Relies on serde_json: parse the response body and read the string at
/// `output.choices[0].message.content[0].text`. Parsing and lookup are
/// deterministic in the body text.
#[verifier::external_body]
pub fn qwen_extract_raw(body: &str) -> (r: Option<String>)
    ensures
        r matches Some(s) ==> qwen_text_of(body@) == Some(s@),
        r is None ==> qwen_text_of(body@) is None,
{
    let v: serde_json::Value = serde_json::from_str(body).ok()?;
    v.get("output")?.get("choices")?.get(0)?.get("message")?.get("content")?.get(0)?.get(
        "text",
    )?.as_str().map(|s| s.to_owned())
}

impl QwenHttpEngine {
    /// Encode the audio as WAV and embed it in the request body. Empty
    /// audio never reaches the encoder, and well-formed buffers — inside
    /// the writer's range, one or two channels, whole frames — are owed a
    /// body.
    pub fn build_request_body(&self, audio: &AudioData) -> (r: Result<String, ASRError>)
        ensures
            audio.samples@.len() == 0 ==> (r matches Err(e) && e is InvalidAudio),
            r matches Err(e) ==> (e is InvalidAudio),
            r matches Ok(b) ==> b@ == spec_qwen_http_body(
                self.model@,
                b64_of(wav_bytes_of(audio.samples@, audio.sample_rate, audio.channels, 16)),
            ),
            spec_wav_params_ok(audio.samples@.len(), audio.sample_rate, audio.channels, 16)
                && audio.channels <= 2 && audio.samples@.len() % (audio.channels as nat) == 0
                && audio.samples@.len() > 0 ==> r is Ok,
    {
        if !wav_params_ok(audio) {
            return Err(ASRError::InvalidAudio("audio parameters out of range".to_owned()));
        }
        let wav = match encode_to_wav(audio) {
            Ok(v) => v,
            Err(EncodingError::InvalidAudioData) => {
                return Err(ASRError::InvalidAudio("audio buffer is empty".to_owned()));
            },
            Err(EncodingError::WavError(m)) | Err(EncodingError::IoError(m)) => {
                return Err(ASRError::InvalidAudio(m));
            },
        };
        if wav.len() > MAX_EMBEDDED_WAV_BYTES {
            return Err(ASRError::InvalidAudio("audio too large to embed".to_owned()));
        }
        let audio_b64 = base64_encode(wav.as_slice());
        Ok(
            "{\"model\":\"".to_owned().concat(json_escape(self.model.as_str()).as_str()).concat(
                "\",\"input\":{\"messages\":[{\"role\":\"system\",\"content\":[{\"text\":\"\"}]},{\"role\":\"user\",\"content\":[{\"audio\":\"data:audio/wav;base64,",
            ).concat(audio_b64.as_str()).concat(
                "\"}]}]},\"parameters\":{\"result_format\":\"message\",\"enable_itn\":false,\"disfluency_removal\":true,\"language\":\"zh\"}}",
            ),
        )
    }

    /// Classify a non-success HTTP status: unauthorized and forbidden are
    /// auth failures, too-many-requests is exhausted quota, anything else
    /// a network error.
    pub fn classify_failure(&self, status: u16, body: String) -> (e: ASRError)
        ensures
            status == 401 || status == 403 ==> (e matches ASRError::AuthFailed { engine, message }
                && engine@ == "qwen"@ && message == body),
            status == 429 ==> (e matches ASRError::QuotaExceeded { engine } && engine@ == "qwen"@),
            !(status == 401 || status == 403 || status == 429) ==> (e is NetworkError),
    {
        if status == 401 || status == 403 {
            ASRError::AuthFailed { engine: "qwen".to_owned(), message: body }
        } else if status == 429 {
            ASRError::QuotaExceeded { engine: "qwen".to_owned() }
        } else {
            ASRError::NetworkError("request failed".to_owned().concat(": ").concat(body.as_str()))
        }
    }

    /// The transcript of a success response, with trailing punctuation
    /// stripped: a result exactly when the response carries one.
    pub fn parse_response(&self, body: &str) -> (r: Result<String, ASRError>)
        ensures
            r is Ok <==> qwen_text_of(body@) is Some,
            qwen_text_of(body@) matches Some(t) ==> (r matches Ok(out) && out@
                == spec_strip_trailing(t)),
            r matches Err(e) ==> (e is InternalError),
    {
        finish_transcript(qwen_extract_raw(body))
    }
}

// ---------------------------------------------------------------------
// Doubao: flash-recognize endpoint
// ---------------------------------------------------------------------

pub fn doubao_api_url() -> (r: &'static str)
    ensures
        r@ == "https://openspeech.bytedance.com/api/v3/auc/bigmodel/recognize/flash"@,
{
    "https://openspeech.bytedance.com/api/v3/auc/bigmodel/recognize/flash"
}

pub fn doubao_resource_id() -> (r: &'static str)
    ensures
        r@ == "volc.bigasr.auc_turbo"@,
{
    "volc.bigasr.auc_turbo"
}

/// The JSON body of one Doubao request: the caller's uid, the WAV bytes
/// in base64, and the model name.
pub open spec fn spec_doubao_http_body(app_id: Seq<char>, audio_b64: Seq<char>) -> Seq<char> {
    "{\"user\":{\"uid\":\""@ + spec_json_escaped(app_id) + "\"},\"audio\":{\"data\":\""@
        + audio_b64 + "\"},\"request\":{\"model_name\":\"bigmodel\"}}"@
}

impl DoubaoHttpEngine {
    /// Encode the audio as WAV and embed it in the request body, under
    /// the same contract as the Qwen builder.
    pub fn build_request_body(&self, audio: &AudioData) -> (r: Result<String, ASRError>)
        ensures
            audio.samples@.len() == 0 ==> (r matches Err(e) && e is InvalidAudio),
            r matches Err(e) ==> (e is InvalidAudio),
            r matches Ok(b) ==> b@ == spec_doubao_http_body(
                self.app_id@,
                b64_of(wav_bytes_of(audio.samples@, audio.sample_rate, audio.channels, 16)),
            ),
            spec_wav_params_ok(audio.samples@.len(), audio.sample_rate, audio.channels, 16)
                && audio.channels <= 2 && audio.samples@.len() % (audio.channels as nat) == 0
                && audio.samples@.len() > 0 ==> r is Ok,
    {
        if !wav_params_ok(audio) {
            return Err(ASRError::InvalidAudio("audio parameters out of range".to_owned()));
        }
        let wav = match encode_to_wav(audio) {
            Ok(v) => v,
            Err(EncodingError::InvalidAudioData) => {
                return Err(ASRError::InvalidAudio("audio buffer is empty".to_owned()));
            },
            Err(EncodingError::WavError(m)) | Err(EncodingError::IoError(m)) => {
                return Err(ASRError::InvalidAudio(m));
            },
        };
        if wav.len() > MAX_EMBEDDED_WAV_BYTES {
            return Err(ASRError::InvalidAudio("audio too large to embed".to_owned()));
        }
        let audio_b64 = base64_encode(wav.as_slice());
        Ok(
            "{\"user\":{\"uid\":\"".to_owned().concat(
                json_escape(self.app_id.as_str()).as_str(),
            ).concat("\"},\"audio\":{\"data\":\"").concat(audio_b64.as_str()).concat(
                "\"},\"request\":{\"model_name\":\"bigmodel\"}}",
            ),
        )
    }

    /// Classify the provider's status-code header: the success code
    /// passes, the three auth codes are auth failures, the quota code is
    /// exhausted quota, anything else a network error.
    pub fn classify_status(&self, status_code: &str, message: &str) -> (r: Option<ASRError>)
        ensures
            status_code@ == "20000000"@ ==> r is None,
            status_code@ == "40100001"@ || status_code@ == "40100002"@ || status_code@
                == "40300001"@ ==> (r matches Some(e) && e matches ASRError::AuthFailed {
                engine,
                message: m,
            } && engine@ == "doubao"@ && m@ == message@),
            status_code@ == "42900001"@ ==> (r matches Some(e) && e matches
                ASRError::QuotaExceeded { engine } && engine@ == "doubao"@),
            !(status_code@ == "20000000"@ || status_code@ == "40100001"@ || status_code@
                == "40100002"@ || status_code@ == "40300001"@ || status_code@ == "42900001"@) ==> (
            r matches Some(e) && e is NetworkError),
    {
        proof {
            reveal_strlit("20000000");
            reveal_strlit("40100001");
            reveal_strlit("40100002");
            reveal_strlit("40300001");
            reveal_strlit("42900001");
            assert("20000000"@[0] == '2' && "40100001"@[0] == '4' && "40100002"@[0] == '4'
                && "40300001"@[0] == '4' && "42900001"@[0] == '4');
            assert("40100001"@[1] == '0' && "40100002"@[1] == '0' && "40300001"@[1] == '0'
                && "42900001"@[1] == '2');
        }
        if str_eq(status_code, "20000000") {
            None
        } else if str_eq(status_code, "40100001") || str_eq(status_code, "40100002") || str_eq(
            status_code,
            "40300001",
        ) {
            Some(
                ASRError::AuthFailed {
                    engine: "doubao".to_owned(),
                    message: message.to_owned(),
                },
            )
        } else if str_eq(status_code, "42900001") {
            Some(ASRError::QuotaExceeded { engine: "doubao".to_owned() })
        } else {
            Some(
                ASRError::NetworkError(
                    "recognition failed".to_owned().concat(": ").concat(message),
                ),
            )
        }
    }

    /// The transcript of a success response, with trailing punctuation
    /// stripped: a result exactly when the response carries one.
    pub fn parse_response(&self, body: &str) -> (r: Result<String, ASRError>)
        ensures
            r is Ok <==> doubao_text_of(body@) is Some,
            doubao_text_of(body@) matches Some(t) ==> (r matches Ok(out) && out@
                == spec_strip_trailing(t)),
            r matches Err(e) ==> (e is InternalError),
    {
        finish_transcript(doubao_response_text(body))
    }
}

// ---------------------------------------------------------------------
// SenseVoice: multipart upload endpoint
// ---------------------------------------------------------------------

pub fn sensevoice_api_url() -> (r: &'static str)
    ensures
        r@ == "https://api.siliconflow.cn/v1/audio/transcriptions"@,
{
    "https://api.siliconflow.cn/v1/audio/transcriptions"
}

/// The transcript a SenseVoice response body carries at `text`, if any —
/// a function of the body text alone.
pub uninterp spec fn sensevoice_text_of(body: Seq<char>) -> Option<Seq<char>>;

/// Relies on serde_json: parse the response body and read the string at
/// `text`. Parsing and lookup are deterministic in the body text.
#[verifier::external_body]
pub fn sensevoice_extract_raw(body: &str) -> (r: Option<String>)
    ensures
        r matches Some(s) ==> sensevoice_text_of(body@) == Some(s@),
        r is None ==> sensevoice_text_of(body@) is None,
{
    let v: serde_json::Value = serde_json::from_str(body).ok()?;
    v.get("text")?.as_str().map(|s| s.to_owned())
}

impl SenseVoiceHttpEngine {
    /// The WAV bytes of the multipart file part; empty audio is rejected
    /// before encoding, and well-formed buffers are owed the bytes.
    pub fn build_wav(&self, audio: &AudioData) -> (r: Result<Vec<u8>, ASRError>)
        ensures
            audio.samples@.len() == 0 ==> (r matches Err(e) && e is InvalidAudio),
            r matches Err(e) ==> (e is InvalidAudio),
            r matches Ok(v) ==> v@ == wav_bytes_of(
                audio.samples@,
                audio.sample_rate,
                audio.channels,
                16,
            ),
            spec_wav_params_ok(audio.samples@.len(), audio.sample_rate, audio.channels, 16)
                && audio.channels <= 2 && audio.samples@.len() % (audio.channels as nat) == 0
                && audio.samples@.len() > 0 ==> r is Ok,
    {
        if !wav_params_ok(audio) {
            return Err(ASRError::InvalidAudio("audio parameters out of range".to_owned()));
        }
        match encode_to_wav(audio) {
            Ok(v) => Ok(v),
            Err(EncodingError::InvalidAudioData) => Err(
                ASRError::InvalidAudio("audio buffer is empty".to_owned()),
            ),
            Err(EncodingError::WavError(m)) | Err(EncodingError::IoError(m)) => Err(
                ASRError::InvalidAudio(m),
            ),
        }
    }

    /// Classify a non-success HTTP status: unauthorized is an auth
    /// failure, too-many-requests exhausted quota, not-found a
    /// configuration error (missing model or service), service
    /// unavailability and everything else network errors.
    pub fn classify_failure(&self, status: u16, body: String) -> (e: ASRError)
        ensures
            status == 401 ==> (e matches ASRError::AuthFailed { engine, message } && engine@
                == "sensevoice"@ && message == body),
            status == 429 ==> (e matches ASRError::QuotaExceeded { engine } && engine@
                == "sensevoice"@),
            status == 404 ==> (e is ConfigError),
            !(status == 401 || status == 429 || status == 404) ==> (e is NetworkError),
    {
        if status == 401 {
            ASRError::AuthFailed { engine: "sensevoice".to_owned(), message: body }
        } else if status == 429 {
            ASRError::QuotaExceeded { engine: "sensevoice".to_owned() }
        } else if status == 404 {
            ASRError::ConfigError(
                "model missing or service unavailable".to_owned().concat(": ").concat(
                    body.as_str(),
                ),
            )
        } else {
            ASRError::NetworkError("request failed".to_owned().concat(": ").concat(body.as_str()))
        }
    }

    /// The transcript of a success response, with trailing punctuation
    /// stripped: a result exactly when the response carries one.
    pub fn parse_response(&self, body: &str) -> (r: Result<String, ASRError>)
        ensures
            r is Ok <==> sensevoice_text_of(body@) is Some,
            sensevoice_text_of(body@) matches Some(t) ==> (r matches Ok(out) && out@
                == spec_strip_trailing(t)),
            r matches Err(e) ==> (e is InternalError),
    {
        finish_transcript(sensevoice_extract_raw(body))
    }
}

// ---------------------------------------------------------------------
// Realtime socket endpoints
// ---------------------------------------------------------------------

pub fn doubao_ws_url() -> (r: &'static str)
    ensures
        r@ == "wss://openspeech.bytedance.com/api/v3/sauc/bigmodel_nostream"@,
{
    "wss://openspeech.bytedance.com/api/v3/sauc/bigmodel_nostream"
}

pub fn doubao_ws_resource_id() -> (r: &'static str)
    ensures
        r@ == "volc.seedasr.sauc.duration"@,
{
    "volc.seedasr.sauc.duration"
}

pub fn qwen_ws_url() -> (r: &'static str)
    ensures
        r@ == "wss://dashscope.aliyuncs.com/api-ws/v1/realtime"@,
{
    "wss://dashscope.aliyuncs.com/api-ws/v1/realtime"
}

/// The socket address with the model picked by query parameter.
pub fn qwen_ws_url_with_model(model: &str) -> (r: String)
    ensures
        r@ == "wss://dashscope.aliyuncs.com/api-ws/v1/realtime?model="@ + model@,
{
    "wss://dashscope.aliyuncs.com/api-ws/v1/realtime?model=".to_owned().concat(model)
}

} // verus!
