//! Speed samples: bytes/second derived from a probe's byte count and elapsed
//! milliseconds. Elapsed time is guarded: a zero duration yields a zero
//! sample, never a division by zero.

use vstd::prelude::*;

use crate::outcome::ProbeResult;

verus! {

/// Clamp a mathematical value into the `u64` range.
pub open spec fn cap64(n: nat) -> nat {
    if n > u64::MAX { u64::MAX as nat } else { n }
}

/// Bytes/second of `bytes` transferred over `millis` milliseconds,
/// truncating; a non-positive duration is guarded to a zero speed.
pub open spec fn speed_of(bytes: nat, millis: nat) -> nat {
    if millis == 0 {
        0
    } else {
        (bytes * 1000) / millis
    }
}

/// For a positive duration the sample is exactly `bytes * 1000 / millis`
/// (bytes/second, truncating), and a zero duration is guarded to zero.
pub proof fn lemma_speed_formula(bytes: nat, millis: nat)
    ensures
        millis >= 1 ==> speed_of(bytes, millis) == (bytes * 1000) / millis,
        speed_of(bytes, 0) == 0,
{
}

/// Saturating addition, used wherever byte counts or speed samples are
/// accumulated.
pub fn sat_add_u64(a: u64, b: u64) -> (r: u64)
    ensures
        r == cap64((a + b) as nat),
{
    if a <= u64::MAX - b {
        a + b
    } else {
        u64::MAX
    }
}

/// The speed sample of `bytes` over `millis`, saturating at `u64::MAX`.
pub fn speed_sample(bytes: u64, millis: u64) -> (r: u64)
    ensures
        r == cap64(speed_of(bytes as nat, millis as nat)),
{
    if millis == 0 {
        0
    } else {
        let wide: u128 = (bytes as u128) * 1000 / (millis as u128);
        if wide > u64::MAX as u128 {
            u64::MAX
        } else {
            wide as u64
        }
    }
}

impl ProbeResult {
    /// The speed sample this measurement represents.
    pub open spec fn sample(self) -> nat {
        speed_of(self.bytes as nat, self.millis as nat)
    }

    /// Derive the speed sample, saturating at `u64::MAX`.
    pub fn to_speed(&self) -> (r: u64)
        ensures
            r == cap64(self.sample()),
    {
        speed_sample(self.bytes, self.millis)
    }
}

} // verus!
