//! Streaming sessions. Both providers follow the same shape — configure,
//! stream chunks, finish, then exactly one terminal result — but speak
//! different wire languages: a binary framed protocol with signed
//! sequence numbers, and a JSON event protocol. The message construction
//! and the receive-side state machines are verified; sockets stay outside.

use vstd::prelude::*;
use vstd::string::StringSliceAdditionalSpecFns;

use crate::b64::b64_of;
use crate::b64::base64_encode;
use crate::errors::ASRError;
use crate::text::json_escape;
use crate::text::spec_json_escaped;
use crate::text::spec_strip_all;
use crate::text::str_eq;
use crate::text::strip_punctuation;
use crate::wire_doubao::build_message;
use crate::wire_doubao::gunzip_of;
use crate::wire_doubao::gzip_of;
use crate::wire_doubao::spec_frame_bytes;

verus! {

/// One message bound for the socket, in whichever form the protocol uses.
#[derive(Debug)]
pub enum WsOutbound {
    Binary(Vec<u8>),
    Text(String),
}

/// What a session tells its runtime after absorbing one inbound event:
/// possibly a partial transcript to surface, and possibly the one
/// terminal result.
#[derive(Debug)]
pub struct SessionStep {
    pub partial: Option<String>,
    pub result: Option<Result<String, ASRError>>,
}

// ---------------------------------------------------------------------
// Binary framed protocol: send side
// ---------------------------------------------------------------------

/// The sender's sequence state: the configuration message carries 1,
/// every audio chunk the next higher number, and the end-of-stream marker
/// the negated value of its own number.
#[derive(Debug)]
pub struct DoubaoSendState {
    pub sequence: i32,
}

/// The configuration payload of the binary protocol: PCM, 16 kHz, 16-bit,
/// mono, with the recognition options.
pub open spec fn spec_doubao_config_json(app_id: Seq<char>) -> Seq<char> {
    "{\"user\":{\"uid\":\""@ + spec_json_escaped(app_id)
        + "\"},\"audio\":{\"format\":\"pcm\",\"rate\":16000,\"bits\":16,\"channel\":1},\"request\":{\"model_name\":\"bigmodel\",\"enable_itn\":true,\"enable_punc\":true}}"@
}

/// Build the configuration payload for the given application id.
pub fn doubao_config_json(app_id: &str) -> (r: String)
    ensures
        r@ == spec_doubao_config_json(app_id@),
{
    "{\"user\":{\"uid\":\"".to_owned().concat(json_escape(app_id).as_str()).concat(
        "\"},\"audio\":{\"format\":\"pcm\",\"rate\":16000,\"bits\":16,\"channel\":1},\"request\":{\"model_name\":\"bigmodel\",\"enable_itn\":true,\"enable_punc\":true}}",
    )
}

/// Frame the configuration message: full-client-request type, sequence 1,
/// JSON serialization, gzip-compressed payload.
pub fn doubao_config_frame(config_json: &str) -> (r: Result<Vec<u8>, ASRError>)
    ensures
        gzip_of(config_json.spec_bytes()).len() <= u32::MAX ==> (r matches Ok(v) && v@
            == spec_frame_bytes(0x1, 0x1, 1, gzip_of(config_json.spec_bytes()), 0x1) && gunzip_of(
            gzip_of(config_json.spec_bytes()),
        ) == Some(config_json.spec_bytes())),
        gzip_of(config_json.spec_bytes()).len() > u32::MAX ==> (r matches Err(e) && e
            is InternalError),
        r matches Err(e) ==> (e is InternalError),
{
    build_message(0x1, 0x1, 1, config_json.as_bytes(), 0x1)
}

impl DoubaoSendState {
    pub open spec fn wf(self) -> bool {
        1 <= self.sequence
    }

    /// The state right after the configuration message, which carried
    /// sequence 1.
    pub fn new() -> (r: Self)
        ensures
            r.wf(),
            r.sequence == 1,
    {
        Self { sequence: 1 }
    }

    /// Frame one audio chunk under the next sequence number: numbers
    /// strictly increase across chunks.
    pub fn audio_frame(&mut self, pcm: &[u8]) -> (r: Vec<u8>)
        requires
            old(self).wf(),
            old(self).sequence < i32::MAX,
            pcm@.len() <= u32::MAX,
        ensures
            final(self).wf(),
            final(self).sequence == old(self).sequence + 1,
            r@ == spec_frame_bytes(0x2, 0x1, (old(self).sequence + 1) as i32, pcm@, 0x0),
    {
        self.sequence = self.sequence + 1;
        match build_message(0x2, 0x1, self.sequence, pcm, 0x0) {
            Ok(v) => v,
            Err(_) => vstd::pervasive::unreached(),
        }
    }

    /// Frame the end-of-stream marker: an empty audio message whose
    /// sequence is the negated successor, which tells the server no more
    /// audio follows.
    pub fn finish_frame(&mut self) -> (r: Vec<u8>)
        requires
            old(self).wf(),
            old(self).sequence < i32::MAX,
        ensures
            final(self).wf(),
            final(self).sequence == old(self).sequence + 1,
            r@ == spec_frame_bytes(
                0x2,
                0x3,
                (-(old(self).sequence + 1 as i32)) as i32,
                Seq::<u8>::empty(),
                0x0,
            ),
    {
        self.sequence = self.sequence + 1;
        let last_seq: i32 = -self.sequence;
        let empty: [u8; 0] = [];
        let r = match build_message(0x2, 0x3, last_seq, &empty, 0x0) {
            Ok(v) => v,
            Err(_) => vstd::pervasive::unreached(),
        };
        proof {
            assert(empty@ =~= Seq::<u8>::empty());
        }
        r
    }
}

// ---------------------------------------------------------------------
// Binary framed protocol: receive side
// ---------------------------------------------------------------------

/// The transcript a binary-protocol response payload carries at
/// `result.text`, if any — a function of the payload text alone.
pub uninterp spec fn doubao_text_of(payload: Seq<char>) -> Option<Seq<char>>;

/// Relies on serde_json: parse the payload and read the string at
/// `result.text`. Parsing and lookup are deterministic in the payload
/// text.
#[verifier::external_body]
pub fn doubao_response_text(payload_json: &str) -> (r: Option<String>)
    ensures
        r matches Some(s) ==> doubao_text_of(payload_json@) == Some(s@),
        r is None ==> doubao_text_of(payload_json@) is None,
{
    let v: serde_json::Value = serde_json::from_str(payload_json).ok()?;
    v.get("result")?.get("text")?.as_str().map(|s| s.to_owned())
}

/// The receive state of a binary-protocol session: the best text so far —
/// each response replaces it, nothing is appended — and whether the one
/// terminal result has been delivered.
#[derive(Debug)]
pub struct DoubaoSessionState {
    pub text: String,
    pub resolved: bool,
}

impl DoubaoSessionState {
    pub fn new() -> (r: Self)
        ensures
            r.text@ == Seq::<char>::empty(),
            !r.resolved,
    {
        Self { text: String::new(), resolved: false }
    }

    /// Absorb one parsed response: non-empty text replaces the running
    /// text and is surfaced as a partial; the final flag delivers the
    /// terminal result with whatever text stands.
    pub fn on_response(&mut self, text: Option<String>, is_final: bool) -> (step: SessionStep)
        requires
            !old(self).resolved,
        ensures
            final(self).resolved == is_final,
            text matches Some(t) ==> (t@.len() > 0 ==> (final(self).text == t && step.partial
                == Some(t))),
            text matches Some(t) ==> (t@.len() == 0 ==> (final(self).text == old(self).text
                && step.partial is None)),
            text is None ==> (final(self).text == old(self).text && step.partial is None),
            is_final ==> (step.result matches Some(Ok(out)) && out == final(self).text),
            !is_final ==> step.result is None,
    {
        let mut partial: Option<String> = None;
        match text {
            Some(t) => {
                if t.as_str().unicode_len() > 0 {
                    self.text = t.clone();
                    partial = Some(t);
                } else {
                }
            },
            None => {},
        }
        if is_final {
            self.resolved = true;
            SessionStep { partial, result: Some(Ok(self.text.clone())) }
        } else {
            SessionStep { partial, result: None }
        }
    }

    /// A server error frame is fatal to the session.
    pub fn on_server_error(&mut self, detail: String) -> (r: ASRError)
        requires
            !old(self).resolved,
        ensures
            final(self).resolved,
            r is WebSocketError,
    {
        self.resolved = true;
        ASRError::WebSocketError(detail)
    }

    /// The connection went away. Accumulated non-empty text still counts
    /// as a successful result; with no text the session failed on the
    /// wire.
    pub fn on_connection_closed(&mut self) -> (r: Result<String, ASRError>)
        requires
            !old(self).resolved,
        ensures
            final(self).resolved,
            old(self).text@.len() > 0 ==> r == Ok::<String, ASRError>(old(self).text),
            old(self).text@.len() == 0 ==> (r matches Err(e) && e is WebSocketError),
    {
        self.resolved = true;
        if self.text.as_str().unicode_len() > 0 {
            Ok(self.text.clone())
        } else {
            Err(
                ASRError::WebSocketError(
                    "connection closed before any transcription result".to_owned(),
                ),
            )
        }
    }
}

// ---------------------------------------------------------------------
// JSON event protocol: client events
// ---------------------------------------------------------------------

/// The one-time session configuration event: text-only modality, PCM at
/// 16 kHz, fixed language, turn detection disabled.
pub open spec fn spec_qwen_session_update_json(event_id: Seq<char>) -> Seq<char> {
    "{\"event_id\":\""@ + spec_json_escaped(event_id)
        + "\",\"type\":\"session.update\",\"session\":{\"modalities\":[\"text\"],\"input_audio_format\":\"pcm\",\"sample_rate\":16000,\"input_audio_transcription\":{\"language\":\"zh\"},\"turn_detection\":null}}"@
}

pub fn qwen_session_update_json(event_id: &str) -> (r: String)
    ensures
        r@ == spec_qwen_session_update_json(event_id@),
{
    "{\"event_id\":\"".to_owned().concat(json_escape(event_id).as_str()).concat(
        "\",\"type\":\"session.update\",\"session\":{\"modalities\":[\"text\"],\"input_audio_format\":\"pcm\",\"sample_rate\":16000,\"input_audio_transcription\":{\"language\":\"zh\"},\"turn_detection\":null}}",
    )
}

/// One audio append event: the PCM16 bytes travel base64-encoded.
pub open spec fn spec_qwen_append_json(event_id: Seq<char>, audio_b64: Seq<char>) -> Seq<char> {
    "{\"event_id\":\""@ + spec_json_escaped(event_id) + "\",\"type\":\"input_audio_buffer.append\",\"audio\":\""@
        + audio_b64 + "\"}"@
}

pub fn qwen_append_json(event_id: &str, pcm: &[u8]) -> (r: String)
    requires
        pcm@.len() <= 0xffffffff,
    ensures
        r@ == spec_qwen_append_json(event_id@, b64_of(pcm@)),
{
    let encoded = base64_encode(pcm);
    "{\"event_id\":\"".to_owned().concat(json_escape(event_id).as_str()).concat(
        "\",\"type\":\"input_audio_buffer.append\",\"audio\":\"",
    ).concat(encoded.as_str()).concat("\"}")
}

/// The commit event that asks the server to finish the utterance.
pub open spec fn spec_qwen_commit_json(event_id: Seq<char>) -> Seq<char> {
    "{\"event_id\":\""@ + spec_json_escaped(event_id) + "\",\"type\":\"input_audio_buffer.commit\"}"@
}

pub fn qwen_commit_json(event_id: &str) -> (r: String)
    ensures
        r@ == spec_qwen_commit_json(event_id@),
{
    "{\"event_id\":\"".to_owned().concat(json_escape(event_id).as_str()).concat(
        "\",\"type\":\"input_audio_buffer.commit\"}",
    )
}

// ---------------------------------------------------------------------
// JSON event protocol: server events and receive state
// ---------------------------------------------------------------------

/// The server events of interest, already classified.
#[derive(Debug)]
pub enum QwenServerEvent {
    /// session.created / session.updated: informational.
    SessionAck,
    /// input_audio_buffer.committed: informational.
    Committed,
    /// The input-audio transcription completed, with its transcript.
    TranscriptionCompleted { transcript: String },
    /// An incremental piece of transcript text.
    TranscriptDelta { delta: String },
    /// The transcript finished, possibly restating the full text.
    TranscriptDone { transcript: Option<String> },
    /// The response finished, transcript or not.
    ResponseDone,
    /// A fatal protocol error from the server.
    ApiError { message: String },
    /// Anything else, ignored.
    Other,
}

/// The `type` member of a raw server event, if the event parses and has
/// one — a function of the event text alone.
pub uninterp spec fn qwen_event_type_of(raw: Seq<char>) -> Option<Seq<char>>;

/// Relies on serde_json: parse the event and read the string at `type`.
#[verifier::external_body]
fn qwen_event_type(raw: &str) -> (r: Option<String>)
    ensures
        r matches Some(s) ==> qwen_event_type_of(raw@) == Some(s@),
        r is None ==> qwen_event_type_of(raw@) is None,
{
    let v: serde_json::Value = serde_json::from_str(raw).ok()?;
    v.get("type")?.as_str().map(|s| s.to_owned())
}

/// The `transcript` member of a raw server event, if any — a function of
/// the event text alone.
pub uninterp spec fn qwen_event_transcript_of(raw: Seq<char>) -> Option<Seq<char>>;

/// Relies on serde_json: parse the event and read the string at
/// `transcript`.
#[verifier::external_body]
fn qwen_event_transcript(raw: &str) -> (r: Option<String>)
    ensures
        r matches Some(s) ==> qwen_event_transcript_of(raw@) == Some(s@),
        r is None ==> qwen_event_transcript_of(raw@) is None,
{
    let v: serde_json::Value = serde_json::from_str(raw).ok()?;
    v.get("transcript")?.as_str().map(|s| s.to_owned())
}

/// The `delta` member of a raw server event, if any — a function of the
/// event text alone.
pub uninterp spec fn qwen_event_delta_of(raw: Seq<char>) -> Option<Seq<char>>;

/// Relies on serde_json: parse the event and read the string at `delta`.
#[verifier::external_body]
fn qwen_event_delta(raw: &str) -> (r: Option<String>)
    ensures
        r matches Some(s) ==> qwen_event_delta_of(raw@) == Some(s@),
        r is None ==> qwen_event_delta_of(raw@) is None,
{
    let v: serde_json::Value = serde_json::from_str(raw).ok()?;
    v.get("delta")?.as_str().map(|s| s.to_owned())
}

/// The `error.message` member of a raw server event, if any — a function
/// of the event text alone.
pub uninterp spec fn qwen_event_error_of(raw: Seq<char>) -> Option<Seq<char>>;

/// Relies on serde_json: parse the event and read the string at
/// `error.message`.
#[verifier::external_body]
fn qwen_event_error(raw: &str) -> (r: Option<String>)
    ensures
        r matches Some(s) ==> qwen_event_error_of(raw@) == Some(s@),
        r is None ==> qwen_event_error_of(raw@) is None,
{
    let v: serde_json::Value = serde_json::from_str(raw).ok()?;
    v.get("error")?.get("message")?.as_str().map(|s| s.to_owned())
}

/// The spec-level image of a classified server event.
pub enum QwenEventModel {
    SessionAck,
    Committed,
    TranscriptionCompleted { transcript: Seq<char> },
    TranscriptDelta { delta: Seq<char> },
    TranscriptDone { transcript: Option<Seq<char>> },
    ResponseDone,
    ApiError { message: Seq<char> },
    Other,
}

impl QwenServerEvent {
    /// The event with its text as character sequences.
    pub open spec fn model(self) -> QwenEventModel {
        match self {
            QwenServerEvent::SessionAck => QwenEventModel::SessionAck,
            QwenServerEvent::Committed => QwenEventModel::Committed,
            QwenServerEvent::TranscriptionCompleted { transcript } => (
            QwenEventModel::TranscriptionCompleted { transcript: transcript@ }),
            QwenServerEvent::TranscriptDelta { delta } => (QwenEventModel::TranscriptDelta {
                delta: delta@,
            }),
            QwenServerEvent::TranscriptDone { transcript } => (QwenEventModel::TranscriptDone {
                transcript: match transcript {
                    Some(t) => Some(t@),
                    None => None,
                },
            }),
            QwenServerEvent::ResponseDone => QwenEventModel::ResponseDone,
            QwenServerEvent::ApiError { message } => (QwenEventModel::ApiError {
                message: message@,
            }),
            QwenServerEvent::Other => QwenEventModel::Other,
        }
    }
}

/// How one raw server event is classified, written over the named
/// extractions of its members.
pub open spec fn spec_classify_qwen_event(raw: Seq<char>) -> QwenEventModel {
    match qwen_event_type_of(raw) {
        None => QwenEventModel::Other,
        Some(t) => if t == "session.created"@ || t == "session.updated"@ {
            QwenEventModel::SessionAck
        } else if t == "input_audio_buffer.committed"@ {
            QwenEventModel::Committed
        } else if t == "conversation.item.input_audio_transcription.completed"@ {
            match qwen_event_transcript_of(raw) {
                Some(tr) => QwenEventModel::TranscriptionCompleted { transcript: tr },
                None => QwenEventModel::Other,
            }
        } else if t == "response.audio_transcript.delta"@ {
            match qwen_event_delta_of(raw) {
                Some(d) => QwenEventModel::TranscriptDelta { delta: d },
                None => QwenEventModel::Other,
            }
        } else if t == "response.audio_transcript.done"@ {
            QwenEventModel::TranscriptDone { transcript: qwen_event_transcript_of(raw) }
        } else if t == "response.done"@ {
            QwenEventModel::ResponseDone
        } else if t == "error"@ {
            match qwen_event_error_of(raw) {
                Some(m) => QwenEventModel::ApiError { message: m },
                None => QwenEventModel::ApiError { message: "unknown error"@ },
            }
        } else {
            QwenEventModel::Other
        },
    }
}

/// Classify one raw JSON event from the socket by its type member and
/// the payload members the protocol defines for it.
pub fn classify_qwen_event(raw: &str) -> (ev: QwenServerEvent)
    ensures
        ev.model() == spec_classify_qwen_event(raw@),
{
    let ty = match qwen_event_type(raw) {
        Some(s) => s,
        None => {
            return QwenServerEvent::Other;
        },
    };
    if str_eq(ty.as_str(), "session.created") || str_eq(ty.as_str(), "session.updated") {
        QwenServerEvent::SessionAck
    } else if str_eq(ty.as_str(), "input_audio_buffer.committed") {
        QwenServerEvent::Committed
    } else if str_eq(ty.as_str(), "conversation.item.input_audio_transcription.completed") {
        match qwen_event_transcript(raw) {
            Some(s) => QwenServerEvent::TranscriptionCompleted { transcript: s },
            None => QwenServerEvent::Other,
        }
    } else if str_eq(ty.as_str(), "response.audio_transcript.delta") {
        match qwen_event_delta(raw) {
            Some(s) => QwenServerEvent::TranscriptDelta { delta: s },
            None => QwenServerEvent::Other,
        }
    } else if str_eq(ty.as_str(), "response.audio_transcript.done") {
        QwenServerEvent::TranscriptDone { transcript: qwen_event_transcript(raw) }
    } else if str_eq(ty.as_str(), "response.done") {
        QwenServerEvent::ResponseDone
    } else if str_eq(ty.as_str(), "error") {
        match qwen_event_error(raw) {
            Some(m) => QwenServerEvent::ApiError { message: m },
            None => QwenServerEvent::ApiError { message: "unknown error".to_owned() },
        }
    } else {
        QwenServerEvent::Other
    }
}

/// The receive state of a JSON-protocol session: the running transcript
/// (deltas append, completions replace), whether a completion-class event
/// has been seen, and whether the terminal result went out.
#[derive(Debug)]
pub struct QwenSessionState {
    pub text: String,
    pub has_result: bool,
    pub resolved: bool,
}

impl QwenSessionState {
    pub fn new() -> (r: Self)
        ensures
            r.text@ == Seq::<char>::empty(),
            !r.has_result,
            !r.resolved,
    {
        Self { text: String::new(), has_result: false, resolved: false }
    }

    /// The session resolves once a completion-class event has been seen
    /// and the accumulated text is non-empty.
    pub open spec fn spec_ready(text: Seq<char>, has_result: bool) -> bool {
        has_result && text.len() > 0
    }

    /// Absorb one classified server event. Deltas append to the running
    /// text and surface it as a partial; completion events replace the
    /// text (or merely mark completion); an error event is fatal. As
    /// soon as completion has been seen with non-empty text, the one
    /// terminal result goes out, with the punctuation-stripped
    /// transcript.
    pub fn on_event(&mut self, ev: QwenServerEvent) -> (step: SessionStep)
        requires
            !old(self).resolved,
        ensures
            ev matches QwenServerEvent::TranscriptionCompleted { transcript } ==> (final(self).text == transcript && final(self).has_result),
            ev matches QwenServerEvent::TranscriptDelta { delta } ==> (final(self).text@ == old(self).text@ + delta@ && final(self).has_result == old(self).has_result && (step.partial
                matches Some(p) && p@ == final(self).text@)),
            ev matches QwenServerEvent::TranscriptDone { transcript: Some(t) } ==> (final(self).text == t && final(self).has_result),
            ev matches QwenServerEvent::TranscriptDone { transcript: None } ==> (final(self).text
                == old(self).text && final(self).has_result),
            ev is ResponseDone ==> (final(self).text == old(self).text && final(self).has_result),
            ev is ApiError ==> (final(self).resolved && (step.result matches Some(Err(e)) && e
                is WebSocketError)),
            !(ev is ApiError) ==> (final(self).resolved == Self::spec_ready(
                final(self).text@,
                final(self).has_result,
            ) && (final(self).resolved ==> (step.result matches Some(Ok(out)) && out@
                == spec_strip_all(final(self).text@))) && (!final(self).resolved ==> step.result
                is None)),
            ev is SessionAck || ev is Committed || ev is Other ==> (final(self).text == old(self).text && final(self).has_result == old(self).has_result),
    {
        let mut partial: Option<String> = None;
        match ev {
            QwenServerEvent::TranscriptionCompleted { transcript } => {
                self.text = transcript;
                self.has_result = true;
            },
            QwenServerEvent::TranscriptDelta { delta } => {
                self.text.append(delta.as_str());
                partial = Some(self.text.clone());
            },
            QwenServerEvent::TranscriptDone { transcript } => {
                match transcript {
                    Some(t) => {
                        self.text = t;
                    },
                    None => {},
                }
                self.has_result = true;
            },
            QwenServerEvent::ResponseDone => {
                self.has_result = true;
            },
            QwenServerEvent::ApiError { message } => {
                self.resolved = true;
                let detail = "server reported an error: ".to_owned().concat(message.as_str());
                return SessionStep {
                    partial: None,
                    result: Some(Err(ASRError::WebSocketError(detail))),
                };
            },
            QwenServerEvent::SessionAck | QwenServerEvent::Committed | QwenServerEvent::Other => {
            },
        }
        if self.has_result && self.text.as_str().unicode_len() > 0 {
            self.resolved = true;
            let cleaned = strip_punctuation(self.text.as_str());
            SessionStep { partial, result: Some(Ok(cleaned)) }
        } else {
            SessionStep { partial, result: None }
        }
    }

    /// The connection went away before resolution. Non-empty text counts
    /// as a successful result, stripped like any final transcript; with
    /// no text the session failed on the wire.
    pub fn on_connection_closed(&mut self) -> (r: Result<String, ASRError>)
        requires
            !old(self).resolved,
        ensures
            final(self).resolved,
            old(self).text@.len() > 0 ==> (r matches Ok(out) && out@ == spec_strip_all(
                old(self).text@,
            )),
            old(self).text@.len() == 0 ==> (r matches Err(e) && e is WebSocketError),
    {
        self.resolved = true;
        if self.text.as_str().unicode_len() > 0 {
            Ok(strip_punctuation(self.text.as_str()))
        } else {
            Err(
                ASRError::WebSocketError(
                    "connection closed before any transcription result".to_owned(),
                ),
            )
        }
    }
}

// ---------------------------------------------------------------------
// The uniform session face
// ---------------------------------------------------------------------

/// A streaming session of either protocol, presenting the shared
/// contract: chunk messages in order, one finish marker, one terminal
/// result.
#[derive(Debug)]
pub enum RealtimeSession {
    Doubao { send: DoubaoSendState, recv: DoubaoSessionState },
    Qwen { recv: QwenSessionState },
}

impl RealtimeSession {
    pub open spec fn wf(self) -> bool {
        match self {
            RealtimeSession::Doubao { send, .. } => send.wf() && send.sequence < i32::MAX,
            RealtimeSession::Qwen { .. } => true,
        }
    }

    /// A fresh binary-protocol session, right after its configuration
    /// message.
    pub fn new_doubao() -> (r: Self)
        ensures
            r.wf(),
            r matches RealtimeSession::Doubao { send, recv } && send.sequence == 1 && !recv.resolved
                && recv.text@ == Seq::<char>::empty(),
    {
        RealtimeSession::Doubao { send: DoubaoSendState::new(), recv: DoubaoSessionState::new() }
    }

    /// A fresh JSON-protocol session, right after its session.update.
    pub fn new_qwen() -> (r: Self)
        ensures
            r.wf(),
            r matches RealtimeSession::Qwen { recv } && !recv.resolved && recv.text@ == Seq::<
                char,
            >::empty(),
    {
        RealtimeSession::Qwen { recv: QwenSessionState::new() }
    }

    /// The message that carries one PCM16 chunk: a sequenced binary frame,
    /// or a base64 append event under the given event id.
    pub fn chunk_message(&mut self, pcm: &[u8], event_id: &str) -> (m: WsOutbound)
        requires
            old(self).wf(),
            pcm@.len() <= u32::MAX,
        ensures
            *old(self) matches RealtimeSession::Doubao { send, recv } ==> (*final(self) matches
                RealtimeSession::Doubao { send: s2, recv: r2 } && r2 == recv && s2.sequence
                == send.sequence + 1 && (m matches WsOutbound::Binary(b) && b@ == spec_frame_bytes(
                0x2,
                0x1,
                (send.sequence + 1) as i32,
                pcm@,
                0x0,
            ))),
            *old(self) matches RealtimeSession::Qwen { recv } ==> (*final(self) == *old(self) && (m
                matches WsOutbound::Text(t) && t@ == spec_qwen_append_json(
                event_id@,
                b64_of(pcm@),
            ))),
    {
        match self {
            RealtimeSession::Doubao { send, .. } => WsOutbound::Binary(send.audio_frame(pcm)),
            RealtimeSession::Qwen { .. } => WsOutbound::Text(qwen_append_json(event_id, pcm)),
        }
    }

    /// The end-of-stream signal: the negated-sequence empty frame, or the
    /// commit event.
    pub fn finish_message(&mut self, event_id: &str) -> (m: WsOutbound)
        requires
            old(self).wf(),
        ensures
            *old(self) matches RealtimeSession::Doubao { send, recv } ==> (*final(self) matches
                RealtimeSession::Doubao { send: s2, recv: r2 } && r2 == recv && s2.sequence
                == send.sequence + 1 && (m matches WsOutbound::Binary(b) && b@ == spec_frame_bytes(
                0x2,
                0x3,
                (-(send.sequence + 1 as i32)) as i32,
                Seq::<u8>::empty(),
                0x0,
            ))),
            *old(self) matches RealtimeSession::Qwen { recv } ==> (*final(self) == *old(self) && (m
                matches WsOutbound::Text(t) && t@ == spec_qwen_commit_json(event_id@))),
    {
        match self {
            RealtimeSession::Doubao { send, .. } => WsOutbound::Binary(send.finish_frame()),
            RealtimeSession::Qwen { .. } => WsOutbound::Text(qwen_commit_json(event_id)),
        }
    }
}

} // verus!
