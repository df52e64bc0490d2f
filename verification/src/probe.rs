//! Probe: one timed download measurement against one URL, modelled as a
//! state machine. The caller performs the network requests and feeds the
//! machine one event per observation (pre-flight check result, response
//! status, received chunk, stream end, transport error); the machine decides
//! how bytes accumulate, when the deadline stops the probe, and which error
//! ends it. The `Probe` driver stamps events with the wall clock.

use vstd::prelude::*;

use crate::outcome::{ErrorKind, ProbeOutcome, ProbeResult};
use crate::speed::{cap64, sat_add_u64};

verus! {

/// How the stop deadline is measured: from the probe's start, or from the
/// first byte received.
#[derive(Clone, Copy, Debug, PartialEq, Eq, Structural)]
pub enum TimeoutShape {
    FromProbeStart,
    FromFirstByte,
}

/// Per-probe configuration.
#[derive(Clone, Copy, Debug, PartialEq, Eq, Structural)]
pub struct ProbeConfig {
    /// Whether a lightweight pre-flight existence check precedes the timed
    /// transfer.
    pub head_check: bool,
    /// Upper bound of the requested byte range.
    pub range_upper: u64,
    /// Which instant the deadline counts from.
    pub shape: TimeoutShape,
    /// Wall-clock budget in milliseconds; once elapsed time exceeds it, the
    /// probe stops with what it has accumulated.
    pub budget_millis: u64,
    /// Whether a new request is issued when the stream ends naturally before
    /// the deadline.
    pub reissue: bool,
}

/// One observation fed to the state machine, stamped with the wall-clock
/// time in milliseconds at which it was observed.
#[derive(Clone, Copy, Debug, PartialEq, Eq, Structural)]
pub enum ProbeEvent {
    /// The pre-flight check succeeded; timing begins at `now`.
    HeadOk { now: i64 },
    /// The pre-flight check failed.
    HeadFailed,
    /// A response arrived with this status code.
    StatusReceived { code: u16 },
    /// A body chunk of `len` bytes arrived.
    ChunkReceived { len: u64, now: i64 },
    /// The body stream ended naturally.
    StreamEnded { now: i64 },
    /// A transport-level error occurred.
    TransferFailed { now: i64 },
}

/// Where a probe stands.
#[derive(Clone, Copy, Debug, PartialEq, Eq, Structural)]
pub enum ProbePhase {
    /// Waiting for the pre-flight check's result.
    AwaitingHead,
    /// A request is due or in flight; waiting for its status.
    AwaitingStatus,
    /// Consuming the body stream.
    Streaming,
    /// The probe reached its terminal outcome.
    Done(ProbeOutcome),
}

/// The probe state machine's state: the phase, the bytes accumulated so far,
/// and the instants timing is anchored to.
#[derive(Clone, Copy, Debug, PartialEq, Eq, Structural)]
pub struct ProbeState {
    pub phase: ProbePhase,
    /// Bytes accumulated over all chunks so far (saturating).
    pub bytes: u64,
    /// Wall-clock millisecond at which timing began.
    pub start_millis: i64,
    /// Wall-clock millisecond of the first received byte.
    pub first_byte_millis: i64,
    /// Whether any byte has been received yet.
    pub seen_first_byte: bool,
}

/// Elapsed milliseconds between two clock readings, guarded: a clock that
/// moved backwards yields zero.
pub open spec fn elapsed_of(start: int, now: int) -> nat {
    if now >= start {
        (now - start) as nat
    } else {
        0
    }
}

/// Elapsed milliseconds between two clock readings.
pub fn elapsed_millis(start: i64, now: i64) -> (r: u64)
    ensures
        r == elapsed_of(start as int, now as int),
{
    if now >= start {
        ((now as i128) - (start as i128)) as u64
    } else {
        0
    }
}

impl ProbeState {
    /// The instant the deadline counts from: probe start, or the first byte.
    pub open spec fn anchor(self, config: ProbeConfig) -> int {
        match config.shape {
            TimeoutShape::FromProbeStart => self.start_millis as int,
            TimeoutShape::FromFirstByte => self.first_byte_millis as int,
        }
    }

    /// Whether, at clock reading `now`, elapsed time exceeds the budget.
    /// Under the first-byte shape the deadline cannot fire before any byte
    /// arrived.
    pub open spec fn deadline_passed(self, config: ProbeConfig, now: int) -> bool {
        &&& (config.shape is FromFirstByte ==> self.seen_first_byte)
        &&& elapsed_of(self.anchor(config), now) > config.budget_millis
    }

    /// The measurement accumulated so far, timed from the probe's start.
    pub open spec fn measured(self, now: int) -> ProbeResult {
        ProbeResult {
            bytes: self.bytes,
            millis: cap64(elapsed_of(self.start_millis as int, now)) as u64,
        }
    }

    /// The initial state: an unparseable URL ends the probe at once with
    /// `InvalidUrl`; otherwise the probe awaits the pre-flight check if one
    /// is configured, else its first request, with timing anchored at `now`.
    pub open spec fn initial(config: ProbeConfig, url_ok: bool, now: i64) -> ProbeState {
        if !url_ok {
            ProbeState {
                phase: ProbePhase::Done(ProbeOutcome::Failure(ErrorKind::InvalidUrl)),
                bytes: 0,
                start_millis: now,
                first_byte_millis: now,
                seen_first_byte: false,
            }
        } else {
            ProbeState {
                phase: if config.head_check {
                    ProbePhase::AwaitingHead
                } else {
                    ProbePhase::AwaitingStatus
                },
                bytes: 0,
                start_millis: now,
                first_byte_millis: now,
                seen_first_byte: false,
            }
        }
    }

    /// The transition relation of the probe: from a state and one observed
    /// event to the next state.
    ///
    /// - A failed pre-flight check ends the probe: `ConnectFailed`.
    /// - A successful pre-flight check starts the timed window at its `now`.
    /// - A status outside {200, 206} ends the probe: `UnexpectedStatus`.
    /// - A chunk adds its bytes (saturating) and records the first byte's
    ///   instant; if the deadline has then passed, the probe succeeds with
    ///   what it accumulated.
    /// - A natural stream end succeeds with what was accumulated, unless
    ///   re-issue is configured and the deadline has not passed, in which
    ///   case a new request is awaited under the same window.
    /// - A transport error ends the probe with `TransferError`, unless the
    ///   deadline had already passed, in which case the accumulated
    ///   measurement stands and the late error is discarded.
    /// - A terminal state absorbs every further event, and an event that
    ///   does not belong to the phase changes nothing.
    pub open spec fn next(self, config: ProbeConfig, event: ProbeEvent) -> ProbeState {
        match self.phase {
            ProbePhase::Done(_) => self,
            ProbePhase::AwaitingHead => match event {
                ProbeEvent::HeadOk { now } => ProbeState {
                    phase: ProbePhase::AwaitingStatus,
                    start_millis: now,
                    first_byte_millis: now,
                    ..self
                },
                ProbeEvent::HeadFailed => ProbeState {
                    phase: ProbePhase::Done(ProbeOutcome::Failure(ErrorKind::ConnectFailed)),
                    ..self
                },
                _ => self,
            },
            ProbePhase::AwaitingStatus => match event {
                ProbeEvent::StatusReceived { code } => {
                    if code == 200 || code == 206 {
                        ProbeState { phase: ProbePhase::Streaming, ..self }
                    } else {
                        ProbeState {
                            phase: ProbePhase::Done(
                                ProbeOutcome::Failure(ErrorKind::UnexpectedStatus),
                            ),
                            ..self
                        }
                    }
                },
                ProbeEvent::TransferFailed { now } => self.fail_or_finish(config, now),
                _ => self,
            },
            ProbePhase::Streaming => match event {
                ProbeEvent::ChunkReceived { len, now } => {
                    let grown = ProbeState {
                        bytes: cap64((self.bytes + len) as nat) as u64,
                        first_byte_millis: if self.seen_first_byte {
                            self.first_byte_millis
                        } else {
                            now
                        },
                        seen_first_byte: true,
                        ..self
                    };
                    if grown.deadline_passed(config, now as int) {
                        ProbeState {
                            phase: ProbePhase::Done(
                                ProbeOutcome::Success(grown.measured(now as int)),
                            ),
                            ..grown
                        }
                    } else {
                        grown
                    }
                },
                ProbeEvent::StreamEnded { now } => {
                    if config.reissue && !self.deadline_passed(config, now as int) {
                        ProbeState { phase: ProbePhase::AwaitingStatus, ..self }
                    } else {
                        ProbeState {
                            phase: ProbePhase::Done(
                                ProbeOutcome::Success(self.measured(now as int)),
                            ),
                            ..self
                        }
                    }
                },
                ProbeEvent::TransferFailed { now } => self.fail_or_finish(config, now),
                _ => self,
            },
        }
    }

    /// A transport error's resolution: the accumulated measurement if the
    /// deadline had already passed, `TransferError` otherwise.
    pub open spec fn fail_or_finish(self, config: ProbeConfig, now: i64) -> ProbeState {
        if self.deadline_passed(config, now as int) {
            ProbeState {
                phase: ProbePhase::Done(ProbeOutcome::Success(self.measured(now as int))),
                ..self
            }
        } else {
            ProbeState {
                phase: ProbePhase::Done(ProbeOutcome::Failure(ErrorKind::TransferError)),
                ..self
            }
        }
    }

    /// Runtime transition matching `next` exactly.
    pub fn step(self, config: ProbeConfig, event: ProbeEvent) -> (r: ProbeState)
        ensures
            r == self.next(config, event),
    {
        match self.phase {
            ProbePhase::Done(_) => self,
            ProbePhase::AwaitingHead => match event {
                ProbeEvent::HeadOk { now } => ProbeState {
                    phase: ProbePhase::AwaitingStatus,
                    start_millis: now,
                    first_byte_millis: now,
                    ..self
                },
                ProbeEvent::HeadFailed => ProbeState {
                    phase: ProbePhase::Done(ProbeOutcome::Failure(ErrorKind::ConnectFailed)),
                    ..self
                },
                _ => self,
            },
            ProbePhase::AwaitingStatus => match event {
                ProbeEvent::StatusReceived { code } => {
                    if code == 200 || code == 206 {
                        ProbeState { phase: ProbePhase::Streaming, ..self }
                    } else {
                        ProbeState {
                            phase: ProbePhase::Done(
                                ProbeOutcome::Failure(ErrorKind::UnexpectedStatus),
                            ),
                            ..self
                        }
                    }
                },
                ProbeEvent::TransferFailed { now } => self.step_fail_or_finish(config, now),
                _ => self,
            },
            ProbePhase::Streaming => match event {
                ProbeEvent::ChunkReceived { len, now } => {
                    let grown = ProbeState {
                        bytes: sat_add_u64(self.bytes, len),
                        first_byte_millis: if self.seen_first_byte {
                            self.first_byte_millis
                        } else {
                            now
                        },
                        seen_first_byte: true,
                        ..self
                    };
                    if grown.check_deadline(config, now) {
                        ProbeState {
                            phase: ProbePhase::Done(
                                ProbeOutcome::Success(grown.measure_now(now)),
                            ),
                            ..grown
                        }
                    } else {
                        grown
                    }
                },
                ProbeEvent::StreamEnded { now } => {
                    if config.reissue && !self.check_deadline(config, now) {
                        ProbeState { phase: ProbePhase::AwaitingStatus, ..self }
                    } else {
                        ProbeState {
                            phase: ProbePhase::Done(
                                ProbeOutcome::Success(self.measure_now(now)),
                            ),
                            ..self
                        }
                    }
                },
                ProbeEvent::TransferFailed { now } => self.step_fail_or_finish(config, now),
                _ => self,
            },
        }
    }

    /// Runtime deadline check matching `deadline_passed`.
    pub fn check_deadline(&self, config: ProbeConfig, now: i64) -> (r: bool)
        ensures
            r == self.deadline_passed(config, now as int),
    {
        let anchor = match config.shape {
            TimeoutShape::FromProbeStart => self.start_millis,
            TimeoutShape::FromFirstByte => self.first_byte_millis,
        };
        let armed = match config.shape {
            TimeoutShape::FromProbeStart => true,
            TimeoutShape::FromFirstByte => self.seen_first_byte,
        };
        armed && elapsed_millis(anchor, now) > config.budget_millis
    }

    /// Runtime measurement matching `measured`.
    pub fn measure_now(&self, now: i64) -> (r: ProbeResult)
        ensures
            r == self.measured(now as int),
    {
        ProbeResult { bytes: self.bytes, millis: elapsed_millis(self.start_millis, now) }
    }

    fn step_fail_or_finish(self, config: ProbeConfig, now: i64) -> (r: ProbeState)
        ensures
            r == self.fail_or_finish(config, now),
    {
        if self.check_deadline(config, now) {
            ProbeState {
                phase: ProbePhase::Done(ProbeOutcome::Success(self.measure_now(now))),
                ..self
            }
        } else {
            ProbeState {
                phase: ProbePhase::Done(ProbeOutcome::Failure(ErrorKind::TransferError)),
                ..self
            }
        }
    }

    /// The terminal outcome, once the probe is done.
    pub fn outcome(&self) -> (r: Option<ProbeOutcome>)
        ensures
            (match self.phase {
                ProbePhase::Done(o) => r == Some(o),
                _ => r is None,
            }),
    {
        match self.phase {
            ProbePhase::Done(o) => Some(o),
            _ => None,
        }
    }
}

/// Law: a probe's terminal outcome is immutable — once the machine is done,
/// no further event changes its state, so an outcome is produced exactly
/// once and never silently revised.
pub proof fn lemma_terminal_absorbs(state: ProbeState, config: ProbeConfig, event: ProbeEvent)
    requires
        state.phase is Done,
    ensures
        state.next(config, event) == state,
{
}

/// Law: accumulation only grows — no transition loses bytes already
/// counted, and only a received chunk adds any.
pub proof fn lemma_bytes_monotone(state: ProbeState, config: ProbeConfig, event: ProbeEvent)
    ensures
        state.next(config, event).bytes >= state.bytes,
        !(event is ChunkReceived) ==> state.next(config, event).bytes == state.bytes,
{
}

/// Whether a string parses as a URL. The parse is a function of the string
/// alone.
pub uninterp spec fn url_valid(s: Seq<char>) -> bool;

/// Relies on reqwest::Url::parse (the url crate's parser): whether the
/// string is a parseable absolute URL, a function of the string alone.
#[verifier::external_body]
fn url_parses(s: &str) -> (r: bool)
    ensures
        r == url_valid(s@),
{
    reqwest::Url::parse(s).is_ok()
}

/// Relies on chrono::Local::now and DateTime::timestamp_millis: the current
/// wall-clock time in milliseconds since the epoch. Nothing is promised of
/// the value: it depends on the machine's clock.
#[verifier::external_body]
fn current_millis() -> i64 {
    chrono::Local::now().timestamp_millis()
}

/// One probe in flight: its configuration and the state machine's state.
/// The driver methods stamp each observation with the wall clock and apply
/// the `ProbeState::next` transition; each postcondition says the new state
/// is `next` of the old at some clock reading.
#[derive(Clone, Copy, Debug)]
pub struct Probe {
    pub config: ProbeConfig,
    pub state: ProbeState,
}

impl Probe {
    /// Begin a probe against `url`: an unparseable URL fails at once with
    /// `InvalidUrl`; otherwise the machine awaits the pre-flight check or
    /// the first request.
    pub fn start(url: &str, config: ProbeConfig) -> (p: Probe)
        ensures
            p.config == config,
            exists|now: i64| p.state == ProbeState::initial(config, url_valid(url@), now),
    {
        let ok = url_parses(url);
        let now = current_millis();
        let state = ProbeState::initial_exec(config, ok, now);
        Probe { config, state }
    }

    /// Observe an event at the current wall clock.
    pub fn observe(&mut self, event: ProbeEvent)
        ensures
            final(self).config == old(self).config,
            final(self).state == old(self).state.next(old(self).config, event),
    {
        self.state = self.state.step(self.config, event);
    }

    /// The pre-flight check succeeded now.
    pub fn head_ok(&mut self)
        ensures
            final(self).config == old(self).config,
            exists|now: i64|
                final(self).state == old(self).state.next(
                    old(self).config,
                    ProbeEvent::HeadOk { now },
                ),
    {
        let now = current_millis();
        self.observe(ProbeEvent::HeadOk { now });
    }

    /// The pre-flight check failed.
    pub fn head_failed(&mut self)
        ensures
            final(self).config == old(self).config,
            final(self).state == old(self).state.next(old(self).config, ProbeEvent::HeadFailed),
    {
        self.observe(ProbeEvent::HeadFailed);
    }

    /// A response arrived with this status code.
    pub fn status_received(&mut self, code: u16)
        ensures
            final(self).config == old(self).config,
            final(self).state == old(self).state.next(
                old(self).config,
                ProbeEvent::StatusReceived { code },
            ),
    {
        self.observe(ProbeEvent::StatusReceived { code });
    }

    /// A body chunk of `len` bytes arrived now.
    pub fn chunk_received(&mut self, len: u64)
        ensures
            final(self).config == old(self).config,
            exists|now: i64|
                final(self).state == old(self).state.next(
                    old(self).config,
                    ProbeEvent::ChunkReceived { len, now },
                ),
    {
        let now = current_millis();
        self.observe(ProbeEvent::ChunkReceived { len, now });
    }

    /// The body stream ended naturally now.
    pub fn stream_ended(&mut self)
        ensures
            final(self).config == old(self).config,
            exists|now: i64|
                final(self).state == old(self).state.next(
                    old(self).config,
                    ProbeEvent::StreamEnded { now },
                ),
    {
        let now = current_millis();
        self.observe(ProbeEvent::StreamEnded { now });
    }

    /// A transport-level error occurred now.
    pub fn transfer_failed(&mut self)
        ensures
            final(self).config == old(self).config,
            exists|now: i64|
                final(self).state == old(self).state.next(
                    old(self).config,
                    ProbeEvent::TransferFailed { now },
                ),
    {
        let now = current_millis();
        self.observe(ProbeEvent::TransferFailed { now });
    }

    /// The terminal outcome, once the probe is done.
    pub fn outcome(&self) -> (r: Option<ProbeOutcome>)
        ensures
            (match self.state.phase {
                ProbePhase::Done(o) => r == Some(o),
                _ => r is None,
            }),
    {
        self.state.outcome()
    }

    /// Whether another request should be issued: the probe is back to
    /// awaiting a status after a natural stream end under re-issue.
    pub fn wants_request(&self) -> (r: bool)
        ensures
            r == (self.state.phase is AwaitingStatus),
    {
        match self.state.phase {
            ProbePhase::AwaitingStatus => true,
            _ => false,
        }
    }
}

impl ProbeState {
    /// Runtime construction matching `initial`.
    pub fn initial_exec(config: ProbeConfig, url_ok: bool, now: i64) -> (r: ProbeState)
        ensures
            r == ProbeState::initial(config, url_ok, now),
    {
        ProbeState {
            phase: if !url_ok {
                ProbePhase::Done(ProbeOutcome::Failure(ErrorKind::InvalidUrl))
            } else if config.head_check {
                ProbePhase::AwaitingHead
            } else {
                ProbePhase::AwaitingStatus
            },
            bytes: 0,
            start_millis: now,
            first_byte_millis: now,
            seen_first_byte: false,
        }
    }
}

} // verus!
