//! Speech-recognition orchestration core: provider engines, retry and
//! fallback policies, streaming wire protocols, and the realtime task
//! bridge, with machine-checked contracts.

mod audio;
mod encoder;
mod engine;
mod errors;
mod fallback;
mod feedback;
mod http;
mod b64;
mod realtime_task;
mod retry;
mod session;
mod text;
mod types;
mod wire_doubao;

pub use types::ASRConfig;
pub use engine::ASREngine;
pub use errors::ASRError;
pub use types::ASRMode;
pub use types::ASRProviderConfig;
pub use types::AudioData;
pub use encoder::spec_wav_params_ok;
pub use http::wav_params_ok;
pub use http::qwen_text_of;
pub use http::qwen_extract_raw;
pub use http::sensevoice_text_of;
pub use http::sensevoice_extract_raw;
pub use session::doubao_text_of;
pub use session::qwen_event_delta_of;
pub use session::qwen_event_error_of;
pub use session::qwen_event_transcript_of;
pub use session::qwen_event_type_of;
pub use session::spec_classify_qwen_event;
pub use session::QwenEventModel;
pub use text::json_escape;
pub use text::spec_json_escaped;
pub use b64::b64_of;
pub use b64::base64_encode;
pub use http::bearer_value;
pub use feedback::BeepError;
pub use feedback::BeepType;
pub use wire_doubao::build_message;
pub use audio::calculate_duration_ms;
pub use session::classify_qwen_event;
pub use engine::create_engine;
pub use engine::create_engine_by_type;
pub use http::doubao_api_url;
pub use session::doubao_config_frame;
pub use session::doubao_config_json;
pub use http::doubao_resource_id;
pub use session::doubao_response_text;
pub use http::doubao_ws_resource_id;
pub use http::doubao_ws_url;
pub use engine::DoubaoHttpEngine;
pub use engine::DoubaoRealtimeEngine;
pub use session::DoubaoSendState;
pub use session::DoubaoSessionState;
pub use fallback::lemma_exhaustion_run;
pub use fallback::lemma_primary_success_preempts_run;
pub use fallback::lemma_race_fallback_preempts_run;
pub use fallback::spec_after_checkpoint;
pub use fallback::spec_after_primary_failure;
pub use fallback::spec_after_primary_success;
pub use fallback::spec_run_to_exhaustion;
pub use fallback::spec_run_to_success;
pub use fallback::CmdModel;
pub use fallback::DriverModel;
pub use realtime_task::lemma_circuit_breaker_run;
pub use realtime_task::spec_after_chunk;
pub use realtime_task::spec_after_send_error;
pub use realtime_task::spec_run_failed_rounds;
pub use realtime_task::spec_total_samples;
pub use realtime_task::TaskModel;
pub use fallback::DriverCmd;
pub use encoder::encode_i16_to_wav;
pub use encoder::encode_to_wav;
pub use encoder::EncodingError;
pub use types::EngineCredentials;
pub use types::EngineType;
pub use fallback::FallbackStrategy;
pub use http::finish_transcript;
pub use wire_doubao::FrameParse;
pub use wire_doubao::gunzip_of;
pub use wire_doubao::gzip_of;
pub use text::is_session_punct;
pub use text::is_trailing_punct;
pub use errors::join_errors;
pub use wire_doubao::lemma_frame_roundtrip;
pub use retry::lemma_retry_delay_fits;
pub use retry::lemma_retry_schedule;
pub use text::lemma_strip_all_idempotent;
pub use text::lemma_strip_trailing_clean;
pub use text::lemma_strip_trailing_idempotent;
pub use wire_doubao::lemma_u32_be_roundtrip;
pub use realtime_task::MAX_CONSECUTIVE_SEND_FAILURES;
pub use fallback::ParallelFallbackStrategy;
pub use wire_doubao::parse_frame;
pub use wire_doubao::ParsedFrame;
pub use types::PartialTranscription;
pub use http::qwen_api_url;
pub use session::qwen_append_json;
pub use session::qwen_commit_json;
pub use session::qwen_session_update_json;
pub use http::qwen_ws_url;
pub use http::qwen_ws_url_with_model;
pub use engine::QwenHttpEngine;
pub use engine::QwenRealtimeEngine;
pub use session::QwenServerEvent;
pub use session::QwenSessionState;
pub use fallback::RaceStrategy;
pub use session::RealtimeSession;
pub use realtime_task::RealtimeTaskResult;
pub use realtime_task::RealtimeTaskState;
pub use feedback::RecordingError;
pub use feedback::RecordingMode;
pub use retry::retry_delay_ms;
pub use types::RetryConfig;
pub use audio::samples_to_bytes;
pub use http::sensevoice_api_url;
pub use engine::SenseVoiceHttpEngine;
pub use session::SessionStep;
pub use text::spec_dec_digits;
pub use session::spec_doubao_config_json;
pub use http::spec_doubao_http_body;
pub use audio::spec_duration_ms;
pub use wire_doubao::spec_frame_bytes;
pub use errors::spec_join_errors;
pub use wire_doubao::spec_parse_frame;
pub use audio::spec_pcm16_bytes;
pub use session::spec_qwen_append_json;
pub use session::spec_qwen_commit_json;
pub use http::spec_qwen_http_body;
pub use session::spec_qwen_session_update_json;
pub use retry::spec_retry_delay;
pub use text::spec_strip_all;
pub use text::spec_strip_trailing;
pub use wire_doubao::spec_u32_be;
pub use wire_doubao::spec_u32_from_be;
pub use text::str_eq;
pub use fallback::StrategyKind;
pub use text::strip_punctuation;
pub use text::strip_trailing_punctuation;
pub use audio::TARGET_SAMPLE_RATE;
pub use fallback::TranscribeDriver;
pub use types::TranscriptionResult;
pub use text::u64_to_string;
pub use encoder::wav_bytes_of;
pub use encoder::WavEncoder;
pub use session::WsOutbound;
