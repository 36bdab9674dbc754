//! Value types of the capture and audible-feedback collaborators that the
//! core's callers exchange: recording modes and their error taxonomy, and
//! the feedback tone identities.

use vstd::prelude::*;

verus! {

/// How a recording is started and stopped by the user.
#[derive(Debug, Clone, Copy, PartialEq, Eq, Structural)]
pub enum RecordingMode {
    Press,
    Toggle,
}

/// Failures of the capture collaborator.
#[derive(Debug, Clone)]
pub enum RecordingError {
    MicrophoneUnavailable(String),
    PermissionDenied,
    DeviceError(String),
    AlreadyRecording,
    NotRecording,
    EncodingError(String),
    UnsupportedSampleFormat(String),
}

/// The two feedback tones around a recording.
#[derive(Debug, Clone, Copy, PartialEq, Eq, Structural)]
pub enum BeepType {
    /// Rising tone when recording starts.
    RecordingStart,
    /// Falling tone when recording stops.
    RecordingStop,
}

/// Failures of the audible-feedback collaborator.
#[derive(Debug, Clone)]
pub enum BeepError {
    OutputStreamError(String),
    SinkError(String),
}

} // verus!
