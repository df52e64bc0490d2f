//! Aggregation: reduce a collection of probe outcomes to one overall speed
//! figure under a chosen policy. Failed outcomes contribute nothing; an
//! all-failure collection yields a defined zero speed, never an error.

use vstd::prelude::*;

use crate::outcome::{ProbeOutcome, ProbeResult};
use crate::speed::{cap64, sat_add_u64, speed_of, speed_sample};

verus! {

/// Rule for combining several probes' results into one figure.
#[derive(Clone, Copy, Debug, PartialEq, Eq, Structural)]
pub enum AggregatePolicy {
    /// Sum each successful probe's own speed sample.
    SumBytesOverWindow,
    /// Same computation as `SumBytesOverWindow`; kept as a distinct label
    /// for runs whose probes shared one time budget.
    AverageOfSpeeds,
    /// Fold successes two at a time: sum bytes, average elapsed time, then
    /// rederive one speed from the merged totals.
    PairwiseMerge,
}

/// The speed sample an outcome contributes: its measurement's sample for a
/// success, zero for a failure.
pub open spec fn sample_of(o: ProbeOutcome) -> nat {
    match o {
        ProbeOutcome::Success(r) => speed_of(r.bytes as nat, r.millis as nat),
        ProbeOutcome::Failure(_) => 0,
    }
}

/// Sum of the speed samples of all outcomes (failures contribute zero).
pub open spec fn sum_samples(s: Seq<ProbeOutcome>) -> nat
    decreases s.len(),
{
    if s.len() == 0 {
        0
    } else {
        sum_samples(s.drop_last()) + sample_of(s.last())
    }
}

/// The measurements of the successful outcomes, in order.
pub open spec fn successes(s: Seq<ProbeOutcome>) -> Seq<ProbeResult>
    decreases s.len(),
{
    if s.len() == 0 {
        Seq::empty()
    } else {
        successes(s.drop_last()) + match s.last() {
            ProbeOutcome::Success(r) => seq![r],
            ProbeOutcome::Failure(_) => Seq::empty(),
        }
    }
}

/// Merge two measurements: sum the bytes (saturating), average the elapsed
/// times (truncating).
pub open spec fn merge_spec(a: ProbeResult, b: ProbeResult) -> ProbeResult {
    ProbeResult {
        bytes: cap64((a.bytes + b.bytes) as nat) as u64,
        millis: (((a.millis + b.millis) as nat) / 2) as u64,
    }
}

/// Left fold of `merge_spec` over a non-empty run of measurements.
pub open spec fn pairwise_fold(rs: Seq<ProbeResult>) -> ProbeResult
    recommends
        rs.len() >= 1,
    decreases rs.len(),
{
    if rs.len() <= 1 {
        rs[0]
    } else {
        merge_spec(pairwise_fold(rs.drop_last()), rs.last())
    }
}

/// The aggregate speed of a collection of outcomes under a policy, capped
/// into the `u64` range.
pub open spec fn combined_speed(s: Seq<ProbeOutcome>, policy: AggregatePolicy) -> nat {
    match policy {
        AggregatePolicy::PairwiseMerge => {
            if successes(s).len() == 0 {
                0
            } else {
                let m = pairwise_fold(successes(s));
                cap64(speed_of(m.bytes as nat, m.millis as nat))
            }
        },
        _ => cap64(sum_samples(s)),
    }
}

/// Combine two measurements as `merge_spec` describes.
pub fn merge(a: ProbeResult, b: ProbeResult) -> (r: ProbeResult)
    ensures
        r == merge_spec(a, b),
{
    let bytes = sat_add_u64(a.bytes, b.bytes);
    let millis = (((a.millis as u128) + (b.millis as u128)) / 2) as u64;
    ProbeResult { bytes, millis }
}

proof fn lemma_sum_take_step(s: Seq<ProbeOutcome>, i: int)
    requires
        0 <= i < s.len(),
    ensures
        sum_samples(s.take(i + 1)) == sum_samples(s.take(i)) + sample_of(s[i]),
{
    assert(s.take(i + 1).drop_last() =~= s.take(i));
    assert(s.take(i + 1).last() == s[i]);
}

proof fn lemma_successes_take_step(s: Seq<ProbeOutcome>, i: int)
    requires
        0 <= i < s.len(),
    ensures
        s[i] is Success ==> successes(s.take(i + 1)) == successes(s.take(i)).push(
            s[i]->Success_0,
        ),
        !(s[i] is Success) ==> successes(s.take(i + 1)) == successes(s.take(i)),
{
    assert(s.take(i + 1).drop_last() =~= s.take(i));
    assert(s.take(i + 1).last() == s[i]);
    match s[i] {
        ProbeOutcome::Success(r) => {
            assert(successes(s.take(i + 1)) =~= successes(s.take(i)).push(r));
        },
        ProbeOutcome::Failure(_) => {
            assert(successes(s.take(i + 1)) =~= successes(s.take(i)));
        },
    }
}

proof fn lemma_pairwise_fold_push(rs: Seq<ProbeResult>, r: ProbeResult)
    ensures
        rs.len() == 0 ==> pairwise_fold(rs.push(r)) == r,
        rs.len() >= 1 ==> pairwise_fold(rs.push(r)) == merge_spec(pairwise_fold(rs), r),
{
    assert(rs.push(r).drop_last() =~= rs);
    assert(rs.push(r).last() == r);
    if rs.len() == 0 {
        assert(rs.push(r)[0] == r);
    }
}

/// Reduce the outcomes to one aggregate speed under `policy`. Failures are
/// excluded from the computation; with no success at all the result is the
/// defined zero speed.
pub fn combine(outcomes: &Vec<ProbeOutcome>, policy: AggregatePolicy) -> (r: u64)
    ensures
        r == combined_speed(outcomes@, policy),
{
    match policy {
        AggregatePolicy::PairwiseMerge => {
            let mut acc: Option<ProbeResult> = None;
            let mut i: usize = 0;
            while i < outcomes.len()
                invariant
                    0 <= i <= outcomes@.len(),
                    acc is None <==> successes(outcomes@.take(i as int)).len() == 0,
                    acc matches Some(a) ==> a == pairwise_fold(successes(outcomes@.take(i as int))),
                decreases outcomes@.len() - i,
            {
                proof {
                    lemma_successes_take_step(outcomes@, i as int);
                }
                match outcomes[i] {
                    ProbeOutcome::Success(res) => {
                        proof {
                            lemma_pairwise_fold_push(successes(outcomes@.take(i as int)), res);
                        }
                        acc = match acc {
                            None => Some(res),
                            Some(a) => Some(merge(a, res)),
                        };
                    },
                    ProbeOutcome::Failure(_) => {},
                }
                i = i + 1;
            }
            proof {
                assert(outcomes@.take(outcomes@.len() as int) =~= outcomes@);
            }
            match acc {
                None => 0,
                Some(a) => speed_sample(a.bytes, a.millis),
            }
        },
        _ => {
            let mut total: u64 = 0;
            let mut i: usize = 0;
            while i < outcomes.len()
                invariant
                    0 <= i <= outcomes@.len(),
                    total == cap64(sum_samples(outcomes@.take(i as int))),
                decreases outcomes@.len() - i,
            {
                proof {
                    lemma_sum_take_step(outcomes@, i as int);
                }
                let s = match outcomes[i] {
                    ProbeOutcome::Success(res) => speed_sample(res.bytes, res.millis),
                    ProbeOutcome::Failure(_) => 0,
                };
                total = sat_add_u64(total, s);
                i = i + 1;
            }
            proof {
                assert(outcomes@.take(outcomes@.len() as int) =~= outcomes@);
            }
            total
        },
    }
}

proof fn lemma_no_success_no_contribution(s: Seq<ProbeOutcome>)
    requires
        forall|i: int| 0 <= i < s.len() ==> !s[i].is_success(),
    ensures
        sum_samples(s) == 0,
        successes(s).len() == 0,
    decreases s.len(),
{
    if s.len() > 0 {
        assert(!s[s.len() - 1].is_success());
        assert(forall|i: int|
            0 <= i < s.drop_last().len() ==> s.drop_last()[i] == s[i]);
        lemma_no_success_no_contribution(s.drop_last());
    }
}

/// Law: a collection holding no successful outcome aggregates to the defined
/// zero speed under every policy.
pub proof fn lemma_all_failures_zero(s: Seq<ProbeOutcome>, policy: AggregatePolicy)
    requires
        forall|i: int| 0 <= i < s.len() ==> !s[i].is_success(),
    ensures
        combined_speed(s, policy) == 0,
{
    lemma_no_success_no_contribution(s);
}

} // verus!
