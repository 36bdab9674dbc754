//! Classified errors for the recognition core, and the propagation policy
//! the orchestrators apply to them: transient failures are retried,
//! authentication and quota failures skip straight to the fallback, and
//! structural failures (bad audio, bad configuration) fail fast.

use vstd::prelude::*;

verus! {

/// Every failure the core can surface, tagged by kind.
#[derive(Debug, Clone)]
pub enum ASRError {
    /// Connectivity problem or a provider answer outside the taxonomy.
    NetworkError(String),
    /// The provider rejected the credentials.
    AuthFailed { engine: String, message: String },
    /// The provider reported an exhausted quota.
    QuotaExceeded { engine: String },
    /// The audio handed to an engine is unusable (for one-shot use: empty).
    InvalidAudio(String),
    /// A per-attempt or close-wait deadline elapsed.
    Timeout { timeout_ms: u64 },
    /// A streaming wire failure: malformed frame, server error frame, or a
    /// dropped connection.
    WebSocketError(String),
    /// Aggregate verdict after primary and (optional) fallback both failed.
    AllEnginesFailed { primary_error: String, fallback_error: Option<String> },
    /// An engine was used before it was set up.
    NotInitialized,
    /// The engine does not support the requested transport mode.
    UnsupportedOperation(String),
    /// Required credentials are missing or the provider state is invalid.
    ConfigError(String),
    /// Serialization or response-parsing failure.
    InternalError(String),
}

impl ASRError {
    /// Transient failures, worth another attempt of the same engine.
    pub open spec fn spec_is_retryable(self) -> bool {
        match self {
            ASRError::NetworkError(_) => true,
            ASRError::Timeout { .. } => true,
            _ => false,
        }
    }

    /// Structural failures: no retry and no fallback can help.
    pub open spec fn spec_is_fail_fast(self) -> bool {
        match self {
            ASRError::InvalidAudio(_) => true,
            ASRError::ConfigError(_) => true,
            _ => false,
        }
    }

    /// Whether the orchestrator may retry the failed engine.
    pub fn is_retryable(&self) -> (r: bool)
        ensures
            r == self.spec_is_retryable(),
    {
        match self {
            ASRError::NetworkError(_) => true,
            ASRError::Timeout { .. } => true,
            _ => false,
        }
    }

    /// Whether the failure is structural, so that the orchestrator must
    /// return it unchanged, with no retry and no fallback.
    pub fn is_fail_fast(&self) -> (r: bool)
        ensures
            r == self.spec_is_fail_fast(),
    {
        match self {
            ASRError::InvalidAudio(_) => true,
            ASRError::ConfigError(_) => true,
            _ => false,
        }
    }

    /// The rendered form of the error, one line, credential-free.
    pub open spec fn spec_message(self) -> Seq<char> {
        match self {
            ASRError::NetworkError(s) => "network error: "@ + s@,
            ASRError::AuthFailed { engine, message } => "auth failed ("@ + engine@ + "): "@
                + message@,
            ASRError::QuotaExceeded { engine } => "quota exceeded ("@ + engine@ + ")"@,
            ASRError::InvalidAudio(s) => "invalid audio: "@ + s@,
            ASRError::Timeout { timeout_ms } => "request timed out after "@
                + crate::text::spec_dec_digits(timeout_ms as nat) + "ms"@,
            ASRError::WebSocketError(s) => "websocket error: "@ + s@,
            ASRError::AllEnginesFailed { primary_error, fallback_error } => {
                let head = "all engines failed: primary="@ + primary_error@;
                match fallback_error {
                    Some(f) => head + ", fallback="@ + f@,
                    None => head + ", no fallback"@,
                }
            },
            ASRError::NotInitialized => "engine not initialized"@,
            ASRError::UnsupportedOperation(s) => "unsupported operation: "@ + s@,
            ASRError::ConfigError(s) => "configuration error: "@ + s@,
            ASRError::InternalError(s) => "internal error: "@ + s@,
        }
    }

    /// Render the error as one line of text.
    pub fn message(&self) -> (r: String)
        ensures
            r@ == self.spec_message(),
    {
        match self {
            ASRError::NetworkError(s) => "network error: ".to_owned().concat(s.as_str()),
            ASRError::AuthFailed { engine, message } => "auth failed (".to_owned().concat(
                engine.as_str(),
            ).concat("): ").concat(message.as_str()),
            ASRError::QuotaExceeded { engine } => "quota exceeded (".to_owned().concat(
                engine.as_str(),
            ).concat(")"),
            ASRError::InvalidAudio(s) => "invalid audio: ".to_owned().concat(s.as_str()),
            ASRError::Timeout { timeout_ms } => "request timed out after ".to_owned().concat(
                crate::text::u64_to_string(*timeout_ms).as_str(),
            ).concat("ms"),
            ASRError::WebSocketError(s) => "websocket error: ".to_owned().concat(s.as_str()),
            ASRError::AllEnginesFailed { primary_error, fallback_error } => {
                let head = "all engines failed: primary=".to_owned().concat(
                    primary_error.as_str(),
                );
                match fallback_error {
                    Some(f) => head.concat(", fallback=").concat(f.as_str()),
                    None => head.concat(", no fallback"),
                }
            },
            ASRError::NotInitialized => "engine not initialized".to_owned(),
            ASRError::UnsupportedOperation(s) => "unsupported operation: ".to_owned().concat(
                s.as_str(),
            ),
            ASRError::ConfigError(s) => "configuration error: ".to_owned().concat(s.as_str()),
            ASRError::InternalError(s) => "internal error: ".to_owned().concat(s.as_str()),
        }
    }
}

/// The error history of a run of primary attempts, joined with "; " as the
/// aggregate verdict reports it.
pub open spec fn spec_join_errors(msgs: Seq<Seq<char>>) -> Seq<char>
    decreases msgs.len(),
{
    if msgs.len() == 0 {
        Seq::empty()
    } else if msgs.len() == 1 {
        msgs[0]
    } else {
        spec_join_errors(msgs.drop_last()) + "; "@ + msgs.last()
    }
}

/// Join an error history with "; ", oldest first.
pub fn join_errors(msgs: &Vec<String>) -> (r: String)
    ensures
        r@ == spec_join_errors(msgs@.map_values(|m: String| m@)),
{
    let ghost views = msgs@.map_values(|m: String| m@);
    let mut r = String::new();
    let n = msgs.len();
    for i in 0..n
        invariant
            n == msgs@.len(),
            views == msgs@.map_values(|m: String| m@),
            r@ == spec_join_errors(views.subrange(0, i as int)),
    {
        proof {
            let p = views.subrange(0, i + 1);
            assert(p.drop_last() == views.subrange(0, i as int));
            assert(p.last() == views[i as int]);
        }
        if i > 0 {
            r.append("; ");
        }
        r.append(msgs[i].as_str());
        proof {
            if i == 0 {
                assert(views.subrange(0, 1).len() == 1);
            }
        }
    }
    proof {
        assert(views.subrange(0, n as int) == views);
    }
    r
}

} // verus!
