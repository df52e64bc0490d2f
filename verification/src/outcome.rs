//! Probe outcomes: the measurement a completed probe produced, or the kind
//! of error that ended it.

use vstd::prelude::*;

verus! {

/// Why a probe ended without a usable measurement.
#[derive(Clone, Copy, Debug, PartialEq, Eq, Structural)]
pub enum ErrorKind {
    /// The target was not a parseable URL.
    InvalidUrl,
    /// The pre-flight check or connection establishment failed.
    ConnectFailed,
    /// The response status was outside {200, 206}.
    UnexpectedStatus,
    /// The transfer failed mid-stream before the deadline was reached.
    TransferError,
}

/// Bytes transferred and wall-clock time spent by one completed probe.
#[derive(Clone, Copy, Debug, PartialEq, Eq, Structural)]
pub struct ProbeResult {
    pub bytes: u64,
    pub millis: u64,
}

/// Terminal outcome of one probe: a measurement, or the error that ended it.
#[derive(Clone, Copy, Debug, PartialEq, Eq, Structural)]
pub enum ProbeOutcome {
    Success(ProbeResult),
    Failure(ErrorKind),
}

impl ProbeOutcome {
    /// Whether this outcome carries a measurement.
    pub open spec fn is_success(self) -> bool {
        self is Success
    }

    /// Runtime test matching `is_success`.
    pub fn succeeded(&self) -> (r: bool)
        ensures
            r == self.is_success(),
    {
        match self {
            ProbeOutcome::Success(_) => true,
            ProbeOutcome::Failure(_) => false,
        }
    }
}

} // verus!
