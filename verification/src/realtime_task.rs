//! The realtime transcription task: it bridges an ordered audio-chunk
//! source to one streaming session. The traffic counters and the
//! consecutive-send-failure circuit breaker are the verified state
//! machine here; the channels and the socket live outside.

use vstd::prelude::*;

use crate::errors::ASRError;
use crate::types::TranscriptionResult;

verus! {

/// Consecutive send failures at which the task aborts rather than keep
/// writing into a dead connection.
pub const MAX_CONSECUTIVE_SEND_FAILURES: u32 = 5;

/// The outcome of a realtime transcription task: the result, or a failure
/// record detailed enough to log root cause.
#[derive(Debug)]
pub enum RealtimeTaskResult {
    Success(TranscriptionResult),
    Failed { error: ASRError, engine_name: String, chunks_sent: u64, samples_sent: u64 },
}

impl RealtimeTaskResult {
    pub fn is_success(&self) -> (r: bool)
        ensures
            r == (*self is Success),
    {
        match self {
            RealtimeTaskResult::Success(_) => true,
            RealtimeTaskResult::Failed { .. } => false,
        }
    }

    /// Collapse the record into a plain result, dropping the counters.
    pub fn into_result(self) -> (r: Result<TranscriptionResult, ASRError>)
        ensures
            self matches RealtimeTaskResult::Success(t) ==> r == Ok::<
                TranscriptionResult,
                ASRError,
            >(t),
            self matches RealtimeTaskResult::Failed { error, .. } ==> r == Err::<
                TranscriptionResult,
                ASRError,
            >(error),
    {
        match self {
            RealtimeTaskResult::Success(result) => Ok(result),
            RealtimeTaskResult::Failed { error, .. } => Err(error),
        }
    }

    pub fn error(&self) -> (r: Option<&ASRError>)
        ensures
            self matches RealtimeTaskResult::Failed { .. } <==> r is Some,
    {
        match self {
            RealtimeTaskResult::Failed { error, .. } => Some(error),
            _ => None,
        }
    }
}

/// The verified state of one running realtime task.
#[derive(Debug)]
pub struct RealtimeTaskState {
    pub engine_name: String,
    /// Chunks taken from the source so far, the failed sends included.
    pub chunks_sent: u64,
    /// Samples carried by those chunks.
    pub samples_sent: u64,
    /// Sends that failed with no success in between.
    pub consecutive_failures: u32,
}

impl RealtimeTaskState {
    /// The counters as mathematical values.
    pub open spec fn model(self) -> TaskModel {
        TaskModel {
            chunks_sent: self.chunks_sent as nat,
            samples_sent: self.samples_sent as nat,
            consecutive_failures: self.consecutive_failures as nat,
        }
    }

    pub open spec fn wf(self) -> bool {
        self.consecutive_failures < MAX_CONSECUTIVE_SEND_FAILURES
    }

    pub fn new(engine_name: String) -> (r: Self)
        ensures
            r.wf(),
            r.engine_name == engine_name,
            r.chunks_sent == 0,
            r.samples_sent == 0,
            r.consecutive_failures == 0,
    {
        Self { engine_name, chunks_sent: 0, samples_sent: 0, consecutive_failures: 0 }
    }

    /// Count one chunk taken from the source, before its send.
    pub fn on_chunk(&mut self, samples: usize)
        requires
            old(self).chunks_sent < u64::MAX,
            old(self).samples_sent + samples <= u64::MAX,
        ensures
            final(self).chunks_sent == old(self).chunks_sent + 1,
            final(self).samples_sent == old(self).samples_sent + samples,
            final(self).engine_name == old(self).engine_name,
            final(self).consecutive_failures == old(self).consecutive_failures,
            final(self).model() == spec_after_chunk(old(self).model(), samples as nat),
    {
        self.chunks_sent = self.chunks_sent + 1;
        self.samples_sent = self.samples_sent + (samples as u64);
    }

    /// A successful send closes any failure streak.
    pub fn on_send_ok(&mut self)
        ensures
            final(self).wf(),
            final(self).consecutive_failures == 0,
            final(self).engine_name == old(self).engine_name,
            final(self).chunks_sent == old(self).chunks_sent,
            final(self).samples_sent == old(self).samples_sent,
    {
        self.consecutive_failures = 0;
    }

    /// A failed send: the circuit breaker trips on exactly the fifth
    /// consecutive failure, aborting the task with a wire error that
    /// carries the traffic counters as they stood.
    pub fn on_send_error(&mut self, message: String) -> (r: Option<RealtimeTaskResult>)
        requires
            old(self).wf(),
        ensures
            final(self).consecutive_failures == old(self).consecutive_failures + 1,
            final(self).engine_name == old(self).engine_name,
            final(self).chunks_sent == old(self).chunks_sent,
            final(self).samples_sent == old(self).samples_sent,
            r is Some <==> old(self).consecutive_failures + 1
                == MAX_CONSECUTIVE_SEND_FAILURES,
            r matches Some(t) ==> (t matches RealtimeTaskResult::Failed {
                error,
                engine_name,
                chunks_sent,
                samples_sent,
            } && error is WebSocketError && engine_name@ == old(self).engine_name@ && chunks_sent
                == old(self).chunks_sent && samples_sent == old(self).samples_sent),
            r is None ==> final(self).wf(),
            (final(self).model(), r is Some) == spec_after_send_error(old(self).model()),
    {
        self.consecutive_failures = self.consecutive_failures + 1;
        if self.consecutive_failures == MAX_CONSECUTIVE_SEND_FAILURES {
            let error = ASRError::WebSocketError(
                "five consecutive chunk sends failed".to_owned().concat(": ").concat(
                    message.as_str(),
                ),
            );
            Some(
                RealtimeTaskResult::Failed {
                    error,
                    engine_name: self.engine_name.clone(),
                    chunks_sent: self.chunks_sent,
                    samples_sent: self.samples_sent,
                },
            )
        } else {
            None
        }
    }

    /// The session closed: its final text becomes the task's result, and
    /// a close failure becomes a failure record with the counters.
    pub fn on_closed(self, close_result: Result<String, ASRError>, elapsed_ms: u64) -> (r:
        RealtimeTaskResult)
        ensures
            close_result matches Ok(text) ==> (r matches RealtimeTaskResult::Success(t) && t.text
                == text && t.engine@ == self.engine_name@ && t.used_fallback == false
                && t.duration_ms == elapsed_ms),
            close_result matches Err(e) ==> r == (RealtimeTaskResult::Failed {
                error: e,
                engine_name: self.engine_name,
                chunks_sent: self.chunks_sent,
                samples_sent: self.samples_sent,
            }),
    {
        match close_result {
            Ok(text) => RealtimeTaskResult::Success(
                TranscriptionResult {
                    text,
                    engine: self.engine_name,
                    used_fallback: false,
                    duration_ms: elapsed_ms,
                },
            ),
            Err(e) => RealtimeTaskResult::Failed {
                error: e,
                engine_name: self.engine_name,
                chunks_sent: self.chunks_sent,
                samples_sent: self.samples_sent,
            },
        }
    }
}


/// The counters of a running task, as mathematical values.
pub struct TaskModel {
    pub chunks_sent: nat,
    pub samples_sent: nat,
    pub consecutive_failures: nat,
}

/// Taking one chunk from the source, at spec level.
pub open spec fn spec_after_chunk(m: TaskModel, samples: nat) -> TaskModel {
    TaskModel {
        chunks_sent: m.chunks_sent + 1,
        samples_sent: m.samples_sent + samples,
        consecutive_failures: m.consecutive_failures,
    }
}

/// One failed send, at spec level: the streak grows, and the breaker
/// trips exactly when it reaches the ceiling.
pub open spec fn spec_after_send_error(m: TaskModel) -> (TaskModel, bool) {
    let next = TaskModel {
        consecutive_failures: m.consecutive_failures + 1,
        ..m
    };
    (next, next.consecutive_failures == MAX_CONSECUTIVE_SEND_FAILURES)
}

/// The samples carried by a sequence of chunks.
pub open spec fn spec_total_samples(sizes: Seq<nat>) -> nat
    decreases sizes.len(),
{
    if sizes.len() == 0 {
        0
    } else {
        spec_total_samples(sizes.drop_first()) + sizes.first()
    }
}

/// A run of rounds in which every send fails: each round takes a chunk
/// and fails its send, until the breaker trips or the chunks run out.
pub open spec fn spec_run_failed_rounds(m: TaskModel, sizes: Seq<nat>) -> (TaskModel, bool)
    decreases sizes.len(),
{
    if sizes.len() == 0 {
        (m, false)
    } else {
        let step = spec_after_send_error(spec_after_chunk(m, sizes.first()));
        if step.1 {
            step
        } else {
            spec_run_failed_rounds(step.0, sizes.drop_first())
        }
    }
}

/// The circuit breaker over whole runs: from a clean streak, a run of
/// all-failing rounds trips on exactly the fifth — never earlier — with
/// the counters equal to every chunk and sample processed up to and
/// including it.
pub proof fn lemma_circuit_breaker_run(m: TaskModel, sizes: Seq<nat>)
    requires
        m.consecutive_failures == 0,
        sizes.len() == MAX_CONSECUTIVE_SEND_FAILURES,
    ensures
        spec_run_failed_rounds(m, sizes).1,
        spec_run_failed_rounds(m, sizes).0.chunks_sent == m.chunks_sent + sizes.len(),
        spec_run_failed_rounds(m, sizes).0.samples_sent == m.samples_sent + spec_total_samples(
            sizes,
        ),
        forall|k: int|
            0 <= k < sizes.len() ==> !spec_run_failed_rounds(m, #[trigger] sizes.subrange(0, k)).1,
{
    lemma_failed_rounds_general(m, sizes);
    assert forall|k: int|
        0 <= k < sizes.len() implies !spec_run_failed_rounds(m, #[trigger] sizes.subrange(0, k)).1 by {
        lemma_failed_rounds_no_trip(m, sizes.subrange(0, k));
    }
}

/// Generalized over the streak already standing: when the rounds left
/// exactly complete the streak, the last one trips the breaker and the
/// counters absorb every round.
proof fn lemma_failed_rounds_general(m: TaskModel, sizes: Seq<nat>)
    requires
        sizes.len() >= 1,
        m.consecutive_failures + sizes.len() == MAX_CONSECUTIVE_SEND_FAILURES,
    ensures
        spec_run_failed_rounds(m, sizes).1,
        spec_run_failed_rounds(m, sizes).0.chunks_sent == m.chunks_sent + sizes.len(),
        spec_run_failed_rounds(m, sizes).0.samples_sent == m.samples_sent + spec_total_samples(
            sizes,
        ),
    decreases sizes.len(),
{
    let step = spec_after_send_error(spec_after_chunk(m, sizes.first()));
    if sizes.len() == 1 {
        assert(spec_total_samples(sizes.drop_first()) == 0);
    } else {
        lemma_failed_rounds_general(step.0, sizes.drop_first());
    }
}

/// A run too short to complete the streak never trips the breaker.
proof fn lemma_failed_rounds_no_trip(m: TaskModel, sizes: Seq<nat>)
    requires
        m.consecutive_failures + sizes.len() < MAX_CONSECUTIVE_SEND_FAILURES,
    ensures
        !spec_run_failed_rounds(m, sizes).1,
    decreases sizes.len(),
{
    if sizes.len() > 0 {
        let step = spec_after_send_error(spec_after_chunk(m, sizes.first()));
        lemma_failed_rounds_no_trip(step.0, sizes.drop_first());
    }
}

} // verus!
