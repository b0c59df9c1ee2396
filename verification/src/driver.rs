//! Client-side request driver.
//!
//! The driver issues a fixed number of request/response cycles, strictly
//! sequentially, over one shared connection handle: the next cycle is not
//! submitted until the previous consumer is done or has failed. It
//! accumulates the byte totals the consumers report; on any cycle failure
//! the whole run aborts and no throughput number is reported.

use vstd::prelude::*;

use crate::report::ThroughputSample;

verus! {

/// What one request/response cycle came to: the byte total its consumer
/// reported, or a failure of any kind (submission, stream, or trailers).
#[derive(Clone, Copy, PartialEq, Eq, Structural, Debug)]
pub enum CycleOutcome {
    Success(u64),
    Failure,
}

/// Runs sequential request cycles and accumulates their byte totals.
#[derive(Clone, Copy, PartialEq, Eq, Structural, Debug)]
pub struct RequestDriver {
    /// How many cycles the run was configured to perform.
    pub target_cycles: u64,
    /// Cycles completed successfully so far.
    pub completed: u64,
    /// Bytes accumulated over the completed cycles.
    pub total_bytes: u64,
    /// Whether some cycle failed; a failed run reports nothing.
    pub failed: bool,
}

impl RequestDriver {
    /// The state a run starts in.
    pub open spec fn spec_new(target_cycles: u64) -> Self {
        RequestDriver { target_cycles, completed: 0, total_bytes: 0, failed: false }
    }

    /// Transition on the outcome of one cycle. Failure is absorbing: once a
    /// cycle has failed, later outcomes change nothing.
    pub open spec fn spec_record(self, outcome: CycleOutcome) -> Self {
        if self.failed {
            self
        } else {
            match outcome {
                CycleOutcome::Success(n) => RequestDriver {
                    completed: (self.completed + 1) as u64,
                    total_bytes: (self.total_bytes + n) as u64,
                    ..self
                },
                CycleOutcome::Failure => RequestDriver { failed: true, ..self },
            }
        }
    }

    /// Driver state after a sequence of cycle outcomes, in order.
    pub open spec fn spec_run(self, outcomes: Seq<CycleOutcome>) -> Self
        decreases outcomes.len(),
    {
        if outcomes.len() == 0 {
            self
        } else {
            self.spec_run(outcomes.drop_last()).spec_record(outcomes.last())
        }
    }

    /// The run performed every configured cycle and none failed.
    pub open spec fn spec_finished(self) -> bool {
        !self.failed && self.completed == self.target_cycles
    }

    pub fn new(target_cycles: u64) -> (d: Self)
        ensures
            d == Self::spec_new(target_cycles),
    {
        RequestDriver { target_cycles, completed: 0, total_bytes: 0, failed: false }
    }

    /// Whether another request should be submitted: the run has neither
    /// failed nor reached its configured cycle count.
    pub fn should_submit(&self) -> (b: bool)
        ensures
            b == (!self.failed && self.completed < self.target_cycles),
    {
        !self.failed && self.completed < self.target_cycles
    }

    /// A cycle's consumer reached `Done` and reported `bytes`.
    pub fn record_success(&mut self, bytes: u64) -> (credit_total: u64)
        requires
            !old(self).failed,
            old(self).completed < old(self).target_cycles,
            old(self).total_bytes + bytes <= u64::MAX,
        ensures
            *final(self) == old(self).spec_record(CycleOutcome::Success(bytes)),
            credit_total == final(self).total_bytes,
    {
        self.completed = self.completed + 1;
        self.total_bytes = self.total_bytes + bytes;
        self.total_bytes
    }

    /// A cycle failed (submission error, stream error, or trailer error):
    /// the whole run aborts.
    pub fn record_failure(&mut self)
        ensures
            *final(self) == old(self).spec_record(CycleOutcome::Failure),
    {
        self.failed = true;
    }

    /// The throughput sample for a finished run, or nothing: a run that
    /// failed, or that has cycles outstanding, reports no throughput.
    pub fn finish(&self, elapsed_ms: u64) -> (r: Option<ThroughputSample>)
        ensures
            r == (if self.spec_finished() {
                Some(ThroughputSample { total_bytes: self.total_bytes, elapsed_ms })
            } else {
                None::<ThroughputSample>
            }),
    {
        if !self.failed && self.completed == self.target_cycles {
            Some(ThroughputSample { total_bytes: self.total_bytes, elapsed_ms })
        } else {
            None
        }
    }
}

/// The sequence of outcomes of `n` cycles that each returned `bytes` bytes.
pub open spec fn uniform_successes(n: nat, bytes: u64) -> Seq<CycleOutcome> {
    Seq::new(n, |i: int| CycleOutcome::Success(bytes))
}

/// Stepping an unfailed driver through `n` uniform successful cycles adds
/// `n` completed cycles and `n * bytes` to the running total.
pub proof fn lemma_uniform_run_from(d: RequestDriver, bytes: u64, n: u64)
    requires
        !d.failed,
        d.completed + n <= u64::MAX,
        d.total_bytes + n * bytes <= u64::MAX,
    ensures
        d.spec_run(uniform_successes(n as nat, bytes)) == (RequestDriver {
            target_cycles: d.target_cycles,
            completed: (d.completed + n) as u64,
            total_bytes: (d.total_bytes + n * bytes) as u64,
            failed: false,
        }),
    decreases n,
{
    if n == 0 {
        assert(uniform_successes(0, bytes) =~= Seq::<CycleOutcome>::empty());
        assert(n * bytes == 0) by (nonlinear_arith)
            requires
                n == 0,
        ;
    } else {
        let shorter = (n - 1) as u64;
        let whole = uniform_successes(n as nat, bytes);
        assert(whole.drop_last() =~= uniform_successes(shorter as nat, bytes));
        assert(whole.last() == CycleOutcome::Success(bytes));
        assert(n * bytes == (n - 1) * bytes + bytes && (n - 1) * bytes >= 0) by (nonlinear_arith)
            requires
                n >= 1,
        ;
        assert(shorter * bytes == (n - 1) * bytes);
        lemma_uniform_run_from(d, bytes, shorter);
        assert(d.spec_run(whole) == d.spec_run(whole.drop_last()).spec_record(whole.last()));
    }
}

/// Running `k` cycles over a connection that always returns a body of
/// `bytes` bytes finishes the run with a total of exactly `k * bytes`.
pub proof fn lemma_uniform_run(k: u64, bytes: u64)
    requires
        k * bytes <= u64::MAX,
    ensures
        RequestDriver::spec_new(k).spec_run(uniform_successes(k as nat, bytes)).spec_finished(),
        RequestDriver::spec_new(k).spec_run(uniform_successes(k as nat, bytes)).total_bytes
            == k * bytes,
{
    assert(k * bytes >= 0) by (nonlinear_arith);
    lemma_uniform_run_from(RequestDriver::spec_new(k), bytes, k);
}

/// A failure in any cycle leaves the whole run failed and unfinished:
/// no throughput is reported for it.
pub proof fn lemma_failure_aborts_run(d: RequestDriver, outcomes: Seq<CycleOutcome>, i: int)
    requires
        0 <= i < outcomes.len(),
        outcomes[i] is Failure,
    ensures
        d.spec_run(outcomes).failed,
        !d.spec_run(outcomes).spec_finished(),
    decreases outcomes.len(),
{
    if i == outcomes.len() - 1 {
    } else {
        lemma_failure_aborts_run(d, outcomes.drop_last(), i);
    }
}

/// One interleaved schedule of cycle outcomes for two independent runs:
/// each event carries which of the two runs it belongs to.
pub open spec fn events_of(
    schedule: Seq<(bool, CycleOutcome)>,
    first_run: bool,
) -> Seq<CycleOutcome>
    decreases schedule.len(),
{
    if schedule.len() == 0 {
        Seq::empty()
    } else {
        let rest = events_of(schedule.drop_last(), first_run);
        if schedule.last().0 == first_run {
            rest.push(schedule.last().1)
        } else {
            rest
        }
    }
}

/// Two drivers stepped through one interleaved schedule of outcomes.
pub open spec fn spec_run_interleaved(
    a: RequestDriver,
    b: RequestDriver,
    schedule: Seq<(bool, CycleOutcome)>,
) -> (RequestDriver, RequestDriver)
    decreases schedule.len(),
{
    if schedule.len() == 0 {
        (a, b)
    } else {
        let prior = spec_run_interleaved(a, b, schedule.drop_last());
        if schedule.last().0 {
            (prior.0.spec_record(schedule.last().1), prior.1)
        } else {
            (prior.0, prior.1.spec_record(schedule.last().1))
        }
    }
}

/// Two runs interleaved in any order do not interfere: each driver ends
/// exactly as if it had been run alone on its own outcomes. Driver state
/// is run-scoped; nothing is shared between the two.
pub proof fn lemma_runs_independent(
    a: RequestDriver,
    b: RequestDriver,
    schedule: Seq<(bool, CycleOutcome)>,
)
    ensures
        spec_run_interleaved(a, b, schedule).0 == a.spec_run(events_of(schedule, true)),
        spec_run_interleaved(a, b, schedule).1 == b.spec_run(events_of(schedule, false)),
    decreases schedule.len(),
{
    if schedule.len() > 0 {
        lemma_runs_independent(a, b, schedule.drop_last());
        if schedule.last().0 {
            assert(events_of(schedule, true).drop_last() =~= events_of(schedule.drop_last(), true));
            assert(events_of(schedule, false) =~= events_of(schedule.drop_last(), false));
        } else {
            assert(events_of(schedule, false).drop_last()
                =~= events_of(schedule.drop_last(), false));
            assert(events_of(schedule, true) =~= events_of(schedule.drop_last(), true));
        }
    }
}

} // verus!
