//! The three fallback orchestration policies. Each `transcribe` run is a
//! sequence of decisions over attempt outcomes; the decisions are the
//! verified `TranscribeDriver` state machine below, and the surrounding
//! runtime only performs the network calls, sleeps and task management the
//! driver's commands ask for.
//!
//! - Sequential: full primary retry schedule, then one fallback call.
//! - Parallel: fallback spawned up front; awaited only after the primary
//!   exhausts its schedule.
//! - Race: like Parallel, but before every retry delay a completed
//!   fallback result preempts the rest of the primary schedule.

use vstd::prelude::*;

use crate::engine::ASREngine;
use crate::errors::join_errors;
use crate::errors::spec_join_errors;
use crate::errors::ASRError;
use crate::retry::retry_delay_ms;
use crate::retry::spec_retry_delay;
use crate::types::ASRConfig;
use crate::types::ASRProviderConfig;
use crate::types::RetryConfig;
use crate::types::TranscriptionResult;

verus! {

/// Which of the three orchestration policies a driver follows.
#[derive(Debug, Clone, Copy, PartialEq, Eq, Structural)]
pub enum StrategyKind {
    Sequential,
    Parallel,
    Race,
}

/// What the runtime must do next on behalf of the driver.
#[derive(Debug)]
pub enum DriverCmd {
    /// Sleep for the given backoff delay, then run one primary attempt.
    AttemptPrimary { delay_ms: u64 },
    /// Race checkpoint: look whether the background fallback has already
    /// produced a result, and report it before any delay is slept.
    CheckFallback,
    /// Sequential only: call the fallback engine exactly once, no retries.
    InvokeFallback,
    /// Parallel/Race: await the outcome of the background fallback task.
    AwaitFallback,
    /// The run is over; hand this verdict to the caller.
    Finish { result: Result<TranscriptionResult, ASRError> },
}


/// The decision-relevant state of a run, as mathematical values: what
/// the whole-run laws below quantify over.
pub struct DriverModel {
    pub kind: StrategyKind,
    pub max_retries: nat,
    pub base_delay_ms: u64,
    pub primary_name: Seq<char>,
    /// Meaningful only while `fallback_enabled` holds.
    pub fallback_name: Seq<char>,
    pub fallback_enabled: bool,
    pub attempts_done: nat,
    pub errors: Seq<Seq<char>>,
    pub primary_halted: bool,
    pub finished: bool,
}

/// A command as mathematical values; the timing argument is app-side and
/// left out.
pub enum CmdModel {
    AttemptPrimary { delay_ms: int },
    CheckFallback,
    InvokeFallback,
    AwaitFallback,
    FinishOk { text: Seq<char>, engine: Seq<char>, used_fallback: bool },
    FinishErr { primary_error: Seq<char>, fallback_error: Option<Seq<char>> },
    FinishFailFast,
}

impl DriverCmd {
    /// The command as mathematical values.
    pub open spec fn model(self) -> CmdModel {
        match self {
            DriverCmd::AttemptPrimary { delay_ms } => (CmdModel::AttemptPrimary {
                delay_ms: delay_ms as int,
            }),
            DriverCmd::CheckFallback => CmdModel::CheckFallback,
            DriverCmd::InvokeFallback => CmdModel::InvokeFallback,
            DriverCmd::AwaitFallback => CmdModel::AwaitFallback,
            DriverCmd::Finish { result } => match result {
                Ok(tr) => (CmdModel::FinishOk {
                    text: tr.text@,
                    engine: tr.engine@,
                    used_fallback: tr.used_fallback,
                }),
                Err(e) => match e {
                    ASRError::AllEnginesFailed { primary_error, fallback_error } => (
                    CmdModel::FinishErr {
                        primary_error: primary_error@,
                        fallback_error: match fallback_error {
                            Some(f) => Some(f@),
                            None => None,
                        },
                    }),
                    _ => CmdModel::FinishFailFast,
                },
            },
        }
    }
}

/// One failed primary attempt at spec level: what is recorded and what
/// is commanded next, given the failure's rendered message and its
/// classification.
pub open spec fn spec_after_primary_failure(
    m: DriverModel,
    msg: Seq<char>,
    retryable: bool,
    fail_fast: bool,
) -> (DriverModel, CmdModel) {
    if fail_fast {
        (DriverModel { finished: true, ..m }, CmdModel::FinishFailFast)
    } else {
        let recorded = DriverModel { errors: m.errors.push(msg), ..m };
        if retryable && m.attempts_done < m.max_retries {
            let next = DriverModel { attempts_done: m.attempts_done + 1, ..recorded };
            if m.kind is Race && m.fallback_enabled {
                (next, CmdModel::CheckFallback)
            } else {
                (
                    next,
                    CmdModel::AttemptPrimary {
                        delay_ms: spec_retry_delay(m.base_delay_ms, m.attempts_done + 1),
                    },
                )
            }
        } else {
            let halted = DriverModel { primary_halted: true, ..recorded };
            if m.fallback_enabled {
                (
                    halted,
                    if m.kind is Sequential {
                        CmdModel::InvokeFallback
                    } else {
                        CmdModel::AwaitFallback
                    },
                )
            } else {
                (
                    DriverModel { finished: true, ..halted },
                    CmdModel::FinishErr {
                        primary_error: spec_join_errors(recorded.errors),
                        fallback_error: None,
                    },
                )
            }
        }
    }
}

/// A successful primary attempt at spec level: the run ends with the
/// primary's name, whatever else stands.
pub open spec fn spec_after_primary_success(m: DriverModel, text: Seq<char>) -> (
    DriverModel,
    CmdModel,
) {
    (
        DriverModel { finished: true, ..m },
        CmdModel::FinishOk { text, engine: m.primary_name, used_fallback: false },
    )
}

/// A race checkpoint at spec level: a visible fallback success ends the
/// run at once; anything else leaves the state alone and schedules the
/// pending attempt.
pub open spec fn spec_after_checkpoint(m: DriverModel, ready: Option<Seq<char>>) -> (
    DriverModel,
    CmdModel,
) {
    match ready {
        Some(ftxt) => (
            DriverModel { finished: true, ..m },
            CmdModel::FinishOk { text: ftxt, engine: m.fallback_name, used_fallback: true },
        ),
        None => (
            m,
            CmdModel::AttemptPrimary {
                delay_ms: spec_retry_delay(m.base_delay_ms, m.attempts_done),
            },
        ),
    }
}

/// The decision state of one `transcribe` run.
#[derive(Debug)]
pub struct TranscribeDriver {
    pub kind: StrategyKind,
    pub retry: RetryConfig,
    pub primary_name: String,
    pub fallback_name: Option<String>,
    /// Fallback both configured and enabled.
    pub fallback_enabled: bool,
    /// Primary attempts completed so far.
    pub attempts_done: u32,
    /// Rendered message of every failed primary attempt, oldest first.
    pub errors: Vec<String>,
    /// No further primary attempts will run (schedule exhausted, or a
    /// failure class that retrying cannot change).
    pub primary_halted: bool,
    /// A final verdict has been issued.
    pub finished: bool,
}

impl TranscribeDriver {
    /// The driver as mathematical values.
    pub open spec fn model(self) -> DriverModel {
        DriverModel {
            kind: self.kind,
            max_retries: self.retry.max_retries as nat,
            base_delay_ms: self.retry.base_delay_ms,
            primary_name: self.primary_name@,
            fallback_name: match self.fallback_name {
                Some(n) => n@,
                None => Seq::empty(),
            },
            fallback_enabled: self.fallback_enabled,
            attempts_done: self.attempts_done as nat,
            errors: self.error_views(),
            primary_halted: self.primary_halted,
            finished: self.finished,
        }
    }

    /// The recorded primary error history, as text.
    pub open spec fn error_views(self) -> Seq<Seq<char>> {
        self.errors@.map_values(|m: String| m@)
    }

    pub open spec fn wf(self) -> bool {
        &&& self.retry.wf()
        &&& (self.fallback_enabled ==> self.fallback_name is Some)
        &&& self.attempts_done <= self.retry.max_retries + 1
    }

    /// Start a run: no attempts made, nothing recorded, not finished.
    pub fn new(
        kind: StrategyKind,
        primary_name: String,
        fallback_name: Option<String>,
        enable_fallback: bool,
        retry: RetryConfig,
    ) -> (r: Self)
        requires
            retry.wf(),
        ensures
            r.wf(),
            r.kind == kind,
            r.retry == retry,
            r.primary_name == primary_name,
            r.fallback_name == fallback_name,
            r.fallback_enabled == (enable_fallback && fallback_name is Some),
            r.attempts_done == 0,
            r.error_views() == Seq::<Seq<char>>::empty(),
            !r.primary_halted,
            !r.finished,
    {
        let fallback_enabled = enable_fallback && fallback_name.is_some();
        let r = Self {
            kind,
            retry,
            primary_name,
            fallback_name,
            fallback_enabled,
            attempts_done: 0,
            errors: Vec::new(),
            primary_halted: false,
            finished: false,
        };
        proof {
            assert(r.error_views() =~= Seq::<Seq<char>>::empty());
        }
        r
    }

    /// Whether the runtime must spawn the fallback in the background
    /// before the first primary attempt.
    pub fn should_spawn_fallback(&self) -> (r: bool)
        ensures
            r == (!(self.kind is Sequential) && self.fallback_enabled),
    {
        match self.kind {
            StrategyKind::Sequential => false,
            _ => self.fallback_enabled,
        }
    }

    /// The first command of every run: one primary attempt, no delay.
    pub fn begin(&self) -> (cmd: DriverCmd)
        requires
            self.attempts_done == 0,
            !self.finished,
        ensures
            cmd matches DriverCmd::AttemptPrimary { delay_ms } && delay_ms == 0,
    {
        DriverCmd::AttemptPrimary { delay_ms: 0 }
    }

    /// Absorb the outcome of one primary attempt.
    ///
    /// A success always wins, whatever the fallback has done. A
    /// structural failure (invalid audio, configuration) is returned
    /// unchanged, with no retry and no fallback. A transient failure is
    /// retried while the schedule lasts; any other failure, or an
    /// exhausted schedule, hands over to the fallback — or, with none
    /// available, closes the run with the aggregate verdict carrying
    /// exactly the primary error history and no fallback error.
    pub fn on_primary_outcome(&mut self, outcome: Result<String, ASRError>, elapsed_ms: u64) -> (cmd:
        DriverCmd)
        requires
            old(self).wf(),
            !old(self).finished,
            !old(self).primary_halted,
            old(self).attempts_done <= old(self).retry.max_retries,
        ensures
            final(self).wf(),
            final(self).kind == old(self).kind,
            final(self).retry == old(self).retry,
            final(self).primary_name == old(self).primary_name,
            final(self).fallback_name == old(self).fallback_name,
            final(self).fallback_enabled == old(self).fallback_enabled,
            outcome matches Ok(text) ==> (final(self).finished && (cmd matches DriverCmd::Finish {
                result: Ok(tr) } && tr.text == text && tr.engine@ == old(self).primary_name@
                && tr.used_fallback == false && tr.duration_ms == elapsed_ms)),
            outcome matches Err(e) ==> (e.spec_is_fail_fast() ==> (final(self).finished && cmd
                == (DriverCmd::Finish { result: Err(e) }))),
            outcome matches Err(e) ==> (!e.spec_is_fail_fast() ==> final(self).error_views()
                == old(self).error_views().push(e.spec_message())),
            outcome matches Err(e) ==> ((!e.spec_is_fail_fast() && e.spec_is_retryable()
                && old(self).attempts_done < old(self).retry.max_retries) ==> (
            !final(self).finished && !final(self).primary_halted && final(self).attempts_done
                == old(self).attempts_done + 1 && ((old(self).kind is Race && old(self).fallback_enabled) ==> cmd is CheckFallback) && (!(old(self).kind is Race && old(self).fallback_enabled) ==> (cmd matches DriverCmd::AttemptPrimary {
                delay_ms } && delay_ms == spec_retry_delay(
                old(self).retry.base_delay_ms,
                (old(self).attempts_done + 1) as nat,
            ))))),
            outcome matches Err(e) ==> ((!e.spec_is_fail_fast() && !(e.spec_is_retryable()
                && old(self).attempts_done < old(self).retry.max_retries)) ==> (
            final(self).primary_halted && (old(self).fallback_enabled ==> (!final(self).finished
                && cmd == (
            if old(self).kind is Sequential {
                DriverCmd::InvokeFallback
            } else {
                DriverCmd::AwaitFallback
            }))) && (!old(self).fallback_enabled ==> (final(self).finished && (cmd matches
                DriverCmd::Finish { result: Err(err) } && err matches ASRError::AllEnginesFailed {
                primary_error, fallback_error } && primary_error@ == spec_join_errors(
                final(self).error_views(),
            ) && fallback_error is None))))),
            outcome matches Ok(text) ==> (final(self).model(), cmd.model())
                == spec_after_primary_success(old(self).model(), text@),
            outcome matches Err(e) ==> (final(self).model(), cmd.model())
                == spec_after_primary_failure(
                old(self).model(),
                e.spec_message(),
                e.spec_is_retryable(),
                e.spec_is_fail_fast(),
            ),
    {
        match outcome {
            Ok(text) => {
                self.finished = true;
                let tr = TranscriptionResult {
                    text,
                    engine: self.primary_name.clone(),
                    used_fallback: false,
                    duration_ms: elapsed_ms,
                };
                DriverCmd::Finish { result: Ok(tr) }
            },
            Err(e) => {
                if e.is_fail_fast() {
                    self.finished = true;
                    return DriverCmd::Finish { result: Err(e) };
                }
                let msg = e.message();
                let ghost old_views = self.error_views();
                self.errors.push(msg);
                proof {
                    assert(self.error_views() =~= old_views.push(e.spec_message()));
                }
                if e.is_retryable() && self.attempts_done < self.retry.max_retries {
                    self.attempts_done = self.attempts_done + 1;
                    // the checkpoint exists only where a fallback runs in
                    // the background; without one the schedule continues
                    if self.kind == StrategyKind::Race && self.fallback_enabled {
                        DriverCmd::CheckFallback
                    } else {
                        DriverCmd::AttemptPrimary {
                            delay_ms: retry_delay_ms(&self.retry, self.attempts_done),
                        }
                    }
                } else {
                    self.primary_halted = true;
                    if self.fallback_enabled {
                        match self.kind {
                            StrategyKind::Sequential => DriverCmd::InvokeFallback,
                            _ => DriverCmd::AwaitFallback,
                        }
                    } else {
                        self.finished = true;
                        let joined = join_errors(&self.errors);
                        DriverCmd::Finish {
                            result: Err(
                                ASRError::AllEnginesFailed {
                                    primary_error: joined,
                                    fallback_error: None,
                                },
                            ),
                        }
                    }
                }
            },
        }
    }

    /// Race checkpoint, reached between a failed attempt and its retry
    /// delay: a fallback success that is already in ends the run at once —
    /// the remaining delay and attempts are skipped — while no result, or
    /// a failed fallback, lets the primary schedule continue unchanged.
    pub fn on_fallback_check(
        &mut self,
        ready: Option<Result<String, String>>,
        elapsed_ms: u64,
    ) -> (cmd: DriverCmd)
        requires
            old(self).wf(),
            !old(self).finished,
            !old(self).primary_halted,
            old(self).kind is Race,
            old(self).fallback_enabled,
            1 <= old(self).attempts_done <= old(self).retry.max_retries,
        ensures
            final(self).wf(),
            final(self).kind == old(self).kind,
            final(self).retry == old(self).retry,
            final(self).primary_name == old(self).primary_name,
            final(self).fallback_name == old(self).fallback_name,
            final(self).fallback_enabled == old(self).fallback_enabled,
            final(self).attempts_done == old(self).attempts_done,
            final(self).error_views() == old(self).error_views(),
            ready matches Some(Ok(text)) ==> (final(self).finished && (cmd matches
                DriverCmd::Finish { result: Ok(tr) } && tr.text == text && tr.engine@ == old(self).fallback_name.unwrap()@ && tr.used_fallback == true && tr.duration_ms == elapsed_ms)),
            !(ready matches Some(Ok(_))) ==> (!final(self).finished && !final(self).primary_halted
                && (cmd matches DriverCmd::AttemptPrimary { delay_ms } && delay_ms
                == spec_retry_delay(
                old(self).retry.base_delay_ms,
                old(self).attempts_done as nat,
            ))),
            ready matches Some(Ok(text)) ==> (final(self).model(), cmd.model())
                == spec_after_checkpoint(old(self).model(), Some(text@)),
            !(ready matches Some(Ok(_))) ==> (final(self).model(), cmd.model())
                == spec_after_checkpoint(old(self).model(), None),
    {
        match ready {
            Some(Ok(text)) => {
                self.finished = true;
                let engine = match &self.fallback_name {
                    Some(n) => n.clone(),
                    None => vstd::pervasive::unreached(),
                };
                let tr = TranscriptionResult {
                    text,
                    engine,
                    used_fallback: true,
                    duration_ms: elapsed_ms,
                };
                DriverCmd::Finish { result: Ok(tr) }
            },
            _ => DriverCmd::AttemptPrimary {
                delay_ms: retry_delay_ms(&self.retry, self.attempts_done),
            },
        }
    }

    /// Absorb the fallback's own verdict — the sequential one-shot call,
    /// or the awaited background task. Its success closes the run with
    /// the fallback's name and `used_fallback` set; its failure closes it
    /// with the aggregate verdict carrying the primary history and the
    /// fallback's message.
    pub fn on_fallback_outcome(&mut self, outcome: Result<String, String>, elapsed_ms: u64) -> (cmd:
        DriverCmd)
        requires
            old(self).wf(),
            !old(self).finished,
            old(self).primary_halted,
            old(self).fallback_enabled,
        ensures
            final(self).wf(),
            final(self).finished,
            final(self).error_views() == old(self).error_views(),
            outcome matches Ok(text) ==> (cmd matches DriverCmd::Finish { result: Ok(tr) }
                && tr.text == text && tr.engine@ == old(self).fallback_name.unwrap()@
                && tr.used_fallback == true && tr.duration_ms == elapsed_ms),
            outcome matches Err(msg) ==> (cmd matches DriverCmd::Finish { result: Err(err) } && err
                matches ASRError::AllEnginesFailed { primary_error, fallback_error }
                && primary_error@ == spec_join_errors(old(self).error_views()) && (fallback_error
                matches Some(f) && f@ == msg@)),
    {
        self.finished = true;
        match outcome {
            Ok(text) => {
                let engine = match &self.fallback_name {
                    Some(n) => n.clone(),
                    None => vstd::pervasive::unreached(),
                };
                let tr = TranscriptionResult {
                    text,
                    engine,
                    used_fallback: true,
                    duration_ms: elapsed_ms,
                };
                DriverCmd::Finish { result: Ok(tr) }
            },
            Err(msg) => {
                let joined = join_errors(&self.errors);
                DriverCmd::Finish {
                    result: Err(
                        ASRError::AllEnginesFailed {
                            primary_error: joined,
                            fallback_error: Some(msg),
                        },
                    ),
                }
            },
        }
    }
}

/// Sequential orchestration: the primary runs its full retry schedule and
/// only then, at most once, the fallback.
pub struct FallbackStrategy {
    pub primary: ASREngine,
    pub fallback: Option<ASREngine>,
    pub enable_fallback: bool,
    pub retry_config: RetryConfig,
}

impl FallbackStrategy {
    pub fn new(primary: ASREngine, fallback: Option<ASREngine>, enable_fallback: bool) -> (r: Self)
        ensures
            r.primary == primary,
            r.fallback == fallback,
            r.enable_fallback == enable_fallback,
            r.retry_config == (RetryConfig { max_retries: 2, base_delay_ms: 500, timeout_ms: 6000 }),
            r.retry_config.wf(),
    {
        Self { primary, fallback, enable_fallback, retry_config: RetryConfig::default() }
    }

    pub fn with_retry_config(
        primary: ASREngine,
        fallback: Option<ASREngine>,
        enable_fallback: bool,
        retry_config: RetryConfig,
    ) -> (r: Self)
        ensures
            r.primary == primary,
            r.fallback == fallback,
            r.enable_fallback == enable_fallback,
            r.retry_config == retry_config,
    {
        Self { primary, fallback, enable_fallback, retry_config }
    }

    /// Build both engines from an external configuration.
    pub fn from_config(config: &ASRConfig) -> (r: Result<Self, ASRError>)
        ensures
            !config.primary.spec_valid() ==> r is Err,
            r matches Ok(s) ==> (s.enable_fallback == config.enable_fallback
                && s.primary.spec_provider() == config.primary.provider && (s.fallback is Some
                <==> config.fallback is Some)),
    {
        let primary = crate::engine::create_engine(&config.primary)?;
        let fallback = match &config.fallback {
            Some(fallback_config) => Some(crate::engine::create_engine(fallback_config)?),
            None => None,
        };
        Ok(Self::with_retry_config(primary, fallback, config.enable_fallback, RetryConfig::default()))
    }

    pub fn primary_name(&self) -> (r: &'static str)
        ensures
            self.primary.spec_provider() is Qwen ==> r@ == "qwen"@,
            self.primary.spec_provider() is Doubao ==> r@ == "doubao"@,
            self.primary.spec_provider() is SenseVoice ==> r@ == "sensevoice"@,
    {
        self.primary.name()
    }

    pub fn fallback_name(&self) -> (r: Option<&'static str>)
        ensures
            r is Some <==> self.fallback is Some,
    {
        match &self.fallback {
            Some(f) => Some(f.name()),
            None => None,
        }
    }

    pub fn is_fallback_enabled(&self) -> (r: bool)
        ensures
            r == (self.enable_fallback && self.fallback is Some),
    {
        self.enable_fallback && self.fallback.is_some()
    }

    /// The decision state machine of one sequential `transcribe` run.
    pub fn driver(&self) -> (r: TranscribeDriver)
        requires
            self.retry_config.wf(),
        ensures
            r.wf(),
            r.kind is Sequential,
            r.retry == self.retry_config,
            r.attempts_done == 0,
            !r.finished,
            !r.primary_halted,
            r.error_views() == Seq::<Seq<char>>::empty(),
            r.fallback_enabled == (self.enable_fallback && self.fallback is Some),
    {
        let fallback_name = match &self.fallback {
            Some(f) => Some(f.name().to_owned()),
            None => None,
        };
        TranscribeDriver::new(
            StrategyKind::Sequential,
            self.primary_name().to_owned(),
            fallback_name,
            self.enable_fallback,
            self.retry_config.clone(),
        )
    }
}

/// Parallel orchestration: the fallback is spawned before the first
/// primary attempt and awaited only after the whole primary schedule
/// failed.
pub struct ParallelFallbackStrategy {
    pub primary_config: ASRProviderConfig,
    pub fallback_config: Option<ASRProviderConfig>,
    pub enable_fallback: bool,
    pub retry_config: RetryConfig,
}

/// Race orchestration: like Parallel, with a checkpoint before every
/// retry delay at which a completed fallback result preempts the primary.
pub struct RaceStrategy {
    pub primary_config: ASRProviderConfig,
    pub fallback_config: Option<ASRProviderConfig>,
    pub enable_fallback: bool,
    pub retry_config: RetryConfig,
}

impl RaceStrategy {
    pub fn from_config(config: ASRConfig) -> (r: Self)
        ensures
            r.primary_config == config.primary,
            r.fallback_config == config.fallback,
            r.enable_fallback == config.enable_fallback,
            r.retry_config == (RetryConfig { max_retries: 2, base_delay_ms: 500, timeout_ms: 6000 }),
    {
        Self {
            primary_config: config.primary,
            fallback_config: config.fallback,
            enable_fallback: config.enable_fallback,
            retry_config: RetryConfig::default(),
        }
    }

    pub fn with_retry_config(self, retry_config: RetryConfig) -> (r: Self)
        ensures
            r.primary_config == self.primary_config,
            r.fallback_config == self.fallback_config,
            r.enable_fallback == self.enable_fallback,
            r.retry_config == retry_config,
    {
        Self { retry_config, ..self }
    }

    pub fn primary_provider(&self) -> (r: String)
        ensures
            self.primary_config.provider is Qwen ==> r@ == "qwen"@,
            self.primary_config.provider is Doubao ==> r@ == "doubao"@,
            self.primary_config.provider is SenseVoice ==> r@ == "sensevoice"@,
    {
        self.primary_config.provider.as_str().to_owned()
    }

    pub fn fallback_provider(&self) -> (r: Option<String>)
        ensures
            r is Some <==> self.fallback_config is Some,
    {
        match &self.fallback_config {
            Some(c) => Some(c.provider.as_str().to_owned()),
            None => None,
        }
    }

    pub fn is_fallback_enabled(&self) -> (r: bool)
        ensures
            r == (self.enable_fallback && self.fallback_config is Some),
    {
        self.enable_fallback && self.fallback_config.is_some()
    }

    /// The decision state machine of one race `transcribe` run.
    pub fn driver(&self) -> (r: TranscribeDriver)
        requires
            self.retry_config.wf(),
        ensures
            r.wf(),
            r.kind is Race,
            r.retry == self.retry_config,
            r.attempts_done == 0,
            !r.finished,
            !r.primary_halted,
            r.error_views() == Seq::<Seq<char>>::empty(),
            r.fallback_enabled == (self.enable_fallback && self.fallback_config is Some),
    {
        let fallback_name = match &self.fallback_config {
            Some(c) => Some(c.provider.as_str().to_owned()),
            None => None,
        };
        TranscribeDriver::new(
            StrategyKind::Race,
            self.primary_config.provider.as_str().to_owned(),
            fallback_name,
            self.enable_fallback,
            self.retry_config.clone(),
        )
    }
}

impl ParallelFallbackStrategy {
    pub fn from_config(config: ASRConfig) -> (r: Self)
        ensures
            r.primary_config == config.primary,
            r.fallback_config == config.fallback,
            r.enable_fallback == config.enable_fallback,
            r.retry_config == (RetryConfig { max_retries: 2, base_delay_ms: 500, timeout_ms: 6000 }),
    {
        Self {
            primary_config: config.primary,
            fallback_config: config.fallback,
            enable_fallback: config.enable_fallback,
            retry_config: RetryConfig::default(),
        }
    }

    pub fn with_retry_config(self, retry_config: RetryConfig) -> (r: Self)
        ensures
            r.primary_config == self.primary_config,
            r.fallback_config == self.fallback_config,
            r.enable_fallback == self.enable_fallback,
            r.retry_config == retry_config,
    {
        Self { retry_config, ..self }
    }

    pub fn primary_provider(&self) -> (r: String)
        ensures
            self.primary_config.provider is Qwen ==> r@ == "qwen"@,
            self.primary_config.provider is Doubao ==> r@ == "doubao"@,
            self.primary_config.provider is SenseVoice ==> r@ == "sensevoice"@,
    {
        self.primary_config.provider.as_str().to_owned()
    }

    pub fn fallback_provider(&self) -> (r: Option<String>)
        ensures
            r is Some <==> self.fallback_config is Some,
    {
        match &self.fallback_config {
            Some(c) => Some(c.provider.as_str().to_owned()),
            None => None,
        }
    }

    pub fn is_fallback_enabled(&self) -> (r: bool)
        ensures
            r == (self.enable_fallback && self.fallback_config is Some),
    {
        self.enable_fallback && self.fallback_config.is_some()
    }

    /// The decision state machine of one parallel `transcribe` run.
    pub fn driver(&self) -> (r: TranscribeDriver)
        requires
            self.retry_config.wf(),
        ensures
            r.wf(),
            r.kind is Parallel,
            r.retry == self.retry_config,
            r.attempts_done == 0,
            !r.finished,
            !r.primary_halted,
            r.error_views() == Seq::<Seq<char>>::empty(),
            r.fallback_enabled == (self.enable_fallback && self.fallback_config is Some),
    {
        let fallback_name = match &self.fallback_config {
            Some(c) => Some(c.provider.as_str().to_owned()),
            None => None,
        };
        TranscribeDriver::new(
            StrategyKind::Parallel,
            self.primary_config.provider.as_str().to_owned(),
            fallback_name,
            self.enable_fallback,
            self.retry_config.clone(),
        )
    }
}


// ---------------------------------------------------------------------
// Whole-run laws
// ---------------------------------------------------------------------

/// A run over a schedule of transient failures that exhausts it: each
/// failure is absorbed in turn (with no usable fallback there are no
/// checkpoints), and the last one closes the run.
pub open spec fn spec_run_to_exhaustion(m: DriverModel, msgs: Seq<Seq<char>>) -> (
    DriverModel,
    CmdModel,
)
    recommends
        msgs.len() >= 1,
    decreases msgs.len(),
{
    let step = spec_after_primary_failure(m, msgs[0], true, false);
    if msgs.len() <= 1 {
        step
    } else {
        spec_run_to_exhaustion(step.0, msgs.drop_first())
    }
}

/// With a primary that fails transiently on every attempt and no usable
/// fallback, a run that starts fresh ends — after the whole schedule —
/// in the aggregate verdict whose primary history is exactly the
/// failures in order, joined, and whose fallback error is absent.
pub proof fn lemma_exhaustion_run(m: DriverModel, msgs: Seq<Seq<char>>)
    requires
        !m.finished,
        !m.primary_halted,
        !m.fallback_enabled,
        msgs.len() >= 1,
        m.attempts_done + msgs.len() == m.max_retries + 1,
    ensures
        spec_run_to_exhaustion(m, msgs).0.finished,
        spec_run_to_exhaustion(m, msgs).1 == (CmdModel::FinishErr {
            primary_error: spec_join_errors(m.errors + msgs),
            fallback_error: None,
        }),
    decreases msgs.len(),
{
    let step = spec_after_primary_failure(m, msgs[0], true, false);
    if msgs.len() == 1 {
        assert(m.errors.push(msgs[0]) =~= m.errors + msgs);
    } else {
        lemma_exhaustion_run(step.0, msgs.drop_first());
        assert(m.errors.push(msgs[0]) + msgs.drop_first() =~= m.errors + msgs);
    }
}

/// A run over transient failures inside the schedule, each followed by a
/// checkpoint that saw no fallback success where the policy has one,
/// ended by one primary success.
pub open spec fn spec_run_to_success(
    m: DriverModel,
    msgs: Seq<Seq<char>>,
    text: Seq<char>,
) -> (DriverModel, CmdModel)
    decreases msgs.len(),
{
    if msgs.len() == 0 {
        spec_after_primary_success(m, text)
    } else {
        let step = spec_after_primary_failure(m, msgs[0], true, false);
        let after_checkpoint = if m.kind is Race && m.fallback_enabled {
            spec_after_checkpoint(step.0, None).0
        } else {
            step.0
        };
        spec_run_to_success(after_checkpoint, msgs.drop_first(), text)
    }
}

/// Primary success always preempts the fallback, over whole runs: for
/// every policy, however many transient failures precede it within the
/// schedule, and whatever the checkpoints saw short of a fallback
/// success, the first successful primary attempt ends the run with the
/// primary's name and `used_fallback` false.
pub proof fn lemma_primary_success_preempts_run(
    m: DriverModel,
    msgs: Seq<Seq<char>>,
    text: Seq<char>,
)
    requires
        !m.finished,
        !m.primary_halted,
        m.attempts_done + msgs.len() <= m.max_retries,
    ensures
        spec_run_to_success(m, msgs, text).0.finished,
        spec_run_to_success(m, msgs, text).1 == (CmdModel::FinishOk {
            text,
            engine: m.primary_name,
            used_fallback: false,
        }),
    decreases msgs.len(),
{
    if msgs.len() > 0 {
        let step = spec_after_primary_failure(m, msgs[0], true, false);
        let after_checkpoint = if m.kind is Race && m.fallback_enabled {
            spec_after_checkpoint(step.0, None).0
        } else {
            step.0
        };
        lemma_primary_success_preempts_run(after_checkpoint, msgs.drop_first(), text);
    }
}

/// A fast fallback preempts a failing primary, over whole runs: in a
/// race with its fallback running, a transient failure inside the
/// schedule commands the checkpoint — not the retry delay — and a
/// checkpoint that sees the fallback's success ends the run at once with
/// the fallback's name and `used_fallback` set. The skipped delay and
/// the remaining attempts never happen.
pub proof fn lemma_race_fallback_preempts_run(m: DriverModel, msg: Seq<char>, ftxt: Seq<char>)
    requires
        m.kind is Race,
        m.fallback_enabled,
        !m.finished,
        !m.primary_halted,
        m.attempts_done < m.max_retries,
    ensures
        spec_after_primary_failure(m, msg, true, false).1 is CheckFallback,
        spec_after_checkpoint(spec_after_primary_failure(m, msg, true, false).0, Some(ftxt)).0.finished,
        spec_after_checkpoint(spec_after_primary_failure(m, msg, true, false).0, Some(ftxt)).1 == (
        CmdModel::FinishOk { text: ftxt, engine: m.fallback_name, used_fallback: true }),
{
}

} // verus!
