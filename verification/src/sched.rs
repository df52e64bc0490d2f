//! Scheduler: the target list a run fans out over, and the join point that
//! collects every probe's outcome exactly once. The concurrent launch itself
//! is the caller's; what is verified is that the join is complete — one
//! recorded outcome per probe, none dropped, none duplicated — and that
//! successes and failures partition the collection.

use vstd::prelude::*;

use crate::aggregate::successes;
use crate::outcome::ProbeOutcome;

verus! {

/// The targets of one run: an explicit list of URLs, or one URL probed by a
/// fixed number of synthetic probes.
#[derive(Clone, Debug)]
pub enum TargetList {
    Explicit(Vec<String>),
    Repeat { url: String, count: usize },
}

impl TargetList {
    /// The URLs the run probes, one per probe, in launch order.
    pub open spec fn urls(self) -> Seq<Seq<char>> {
        match self {
            TargetList::Explicit(v) => v@.map(|i: int, s: String| s@),
            TargetList::Repeat { url, count } => Seq::new(count as nat, |i: int| url@),
        }
    }

    /// Materialise one URL per probe.
    pub fn expand(&self) -> (r: Vec<String>)
        ensures
            r@.len() == self.urls().len(),
            forall|i: int| 0 <= i < r@.len() ==> r@[i]@ == self.urls()[i],
    {
        match self {
            TargetList::Explicit(v) => {
                let mut out: Vec<String> = Vec::new();
                let mut i: usize = 0;
                while i < v.len()
                    invariant
                        0 <= i <= v@.len(),
                        out@.len() == i,
                        forall|j: int| 0 <= j < i ==> out@[j]@ == v@[j]@,
                    decreases v@.len() - i,
                {
                    out.push(v[i].clone());
                    i = i + 1;
                }
                out
            },
            TargetList::Repeat { url, count } => {
                let mut out: Vec<String> = Vec::new();
                let mut i: usize = 0;
                while i < *count
                    invariant
                        0 <= i <= *count,
                        out@.len() == i,
                        forall|j: int| 0 <= j < i ==> out@[j]@ == url@,
                    decreases *count - i,
                {
                    out.push(url.clone());
                    i = i + 1;
                }
                out
            },
        }
    }

    /// How many probes the run launches.
    pub fn probe_count(&self) -> (n: usize)
        ensures
            n == self.urls().len(),
    {
        match self {
            TargetList::Explicit(v) => v.len(),
            TargetList::Repeat { url: _, count } => *count,
        }
    }
}

/// The failures among the outcomes, in order.
pub open spec fn failures(s: Seq<ProbeOutcome>) -> Seq<ProbeOutcome>
    decreases s.len(),
{
    if s.len() == 0 {
        Seq::empty()
    } else {
        failures(s.drop_last()) + if s.last() is Failure {
            seq![s.last()]
        } else {
            Seq::empty()
        }
    }
}

/// Law: successes and failures partition a collection of outcomes — with N
/// collected outcomes of which K succeeded, exactly N - K failed.
pub proof fn lemma_join_partition(s: Seq<ProbeOutcome>)
    ensures
        successes(s).len() + failures(s).len() == s.len(),
    decreases s.len(),
{
    if s.len() > 0 {
        lemma_join_partition(s.drop_last());
    }
}

/// Count the successful outcomes.
pub fn count_successes(outcomes: &Vec<ProbeOutcome>) -> (n: usize)
    ensures
        n == successes(outcomes@).len(),
{
    let mut n: usize = 0;
    let mut i: usize = 0;
    while i < outcomes.len()
        invariant
            0 <= i <= outcomes@.len(),
            n == successes(outcomes@.take(i as int)).len(),
            n <= i,
        decreases outcomes@.len() - i,
    {
        proof {
            assert(outcomes@.take(i + 1).drop_last() =~= outcomes@.take(i as int));
            assert(outcomes@.take(i + 1).last() == outcomes@[i as int]);
        }
        if outcomes[i].succeeded() {
            n = n + 1;
        }
        i = i + 1;
    }
    proof {
        assert(outcomes@.take(outcomes@.len() as int) =~= outcomes@);
    }
    n
}

/// The join point of one run: expects one outcome per launched probe and
/// records each exactly once.
#[derive(Clone, Debug)]
pub struct Collector {
    expected: usize,
    outcomes: Vec<ProbeOutcome>,
}

impl Collector {
    /// How many outcomes the join waits for.
    pub closed spec fn expected_count(self) -> nat {
        self.expected as nat
    }

    /// The outcomes recorded so far, in arrival order.
    pub closed spec fn collected(self) -> Seq<ProbeOutcome> {
        self.outcomes@
    }

    /// A collector never holds more outcomes than it expects.
    pub open spec fn wf(self) -> bool {
        self.collected().len() <= self.expected_count()
    }

    /// A join for `expected` probes, with nothing collected yet.
    pub fn new(expected: usize) -> (c: Collector)
        ensures
            c.wf(),
            c.expected_count() == expected,
            c.collected() =~= Seq::<ProbeOutcome>::empty(),
    {
        Collector { expected, outcomes: Vec::new() }
    }

    /// Record one probe's terminal outcome.
    pub fn record(&mut self, o: ProbeOutcome)
        requires
            old(self).wf(),
            old(self).collected().len() < old(self).expected_count(),
        ensures
            final(self).wf(),
            final(self).expected_count() == old(self).expected_count(),
            final(self).collected() == old(self).collected().push(o),
    {
        self.outcomes.push(o);
    }

    /// Whether every expected outcome has arrived.
    pub fn complete(&self) -> (r: bool)
        ensures
            r == (self.collected().len() == self.expected_count()),
    {
        self.outcomes.len() == self.expected
    }

    /// Hand the collection to the aggregator, once the join is complete.
    pub fn into_outcomes(self) -> (v: Vec<ProbeOutcome>)
        requires
            self.collected().len() == self.expected_count(),
        ensures
            v@ == self.collected(),
    {
        self.outcomes
    }
}

} // verus!
