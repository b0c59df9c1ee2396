//! Throughput reporting.
//!
//! A finished run is summarised as total bytes transferred over elapsed
//! wall-clock time. The sample is computed once and emitted as a report;
//! the elapsed time itself is measured by the caller's clock.

use vstd::prelude::*;

use crate::consumer::lemma_body_credit_accounting;
use crate::consumer::sum_of;
use crate::consumer::ConsumerPhase;
use crate::consumer::FlowControlledBodyConsumer;
use crate::driver::lemma_uniform_run;
use crate::driver::uniform_successes;
use crate::driver::RequestDriver;
use crate::params::spec_multiplier_of;
use crate::params::DEFAULT_CYCLE_COUNT;
use crate::params::KIBIBYTE;
use crate::server::DEFAULT_BODY_BYTES;

verus! {

/// Total bytes transferred and elapsed wall-clock time for a full run.
#[derive(Clone, Copy, PartialEq, Eq, Structural, Debug)]
pub struct ThroughputSample {
    /// Bytes transferred over the whole run.
    pub total_bytes: u64,
    /// Elapsed wall-clock time for the run, in milliseconds.
    pub elapsed_ms: u64,
}

impl ThroughputSample {
    /// The throughput ratio (bytes over elapsed time) is finite exactly
    /// when the elapsed time is nonzero, and strictly positive exactly
    /// when, in addition, some bytes were transferred.
    pub open spec fn positive_and_finite(self) -> bool {
        self.total_bytes > 0 && self.elapsed_ms > 0
    }

    /// Throughput in whole bytes per second, rounded down.
    pub fn bytes_per_sec(&self) -> (r: u64)
        requires
            self.elapsed_ms > 0,
            self.total_bytes * 1000 <= u64::MAX,
        ensures
            r == self.total_bytes * 1000 / self.elapsed_ms as int,
    {
        (self.total_bytes * 1000) / self.elapsed_ms
    }
}

/// One full benchmark run, end to end. A frame-size argument of "16"
/// scales to a sixteen-kibibyte frame. Every response body carries chunks
/// summing to the synthetic payload size, so each consumer reports that
/// size; the configured number of cycles then accumulates cycles times
/// payload — 8_388_608_000 bytes — and any positive elapsed time yields a
/// throughput ratio that is strictly positive and finite.
pub proof fn lemma_benchmark_run(chunk_sizes: Seq<u64>, elapsed_ms: u64)
    requires
        sum_of(chunk_sizes) == DEFAULT_BODY_BYTES,
    ensures
        spec_multiplier_of(seq![49u8, 54u8]) * KIBIBYTE == 16384,
        FlowControlledBodyConsumer::spec_run_body(chunk_sizes).phase == ConsumerPhase::Done,
        FlowControlledBodyConsumer::spec_run_body(chunk_sizes).consumed == DEFAULT_BODY_BYTES,
        ({
            let run = RequestDriver::spec_new(DEFAULT_CYCLE_COUNT).spec_run(
                uniform_successes(DEFAULT_CYCLE_COUNT as nat, DEFAULT_BODY_BYTES as u64),
            );
            &&& run.spec_finished()
            &&& run.total_bytes == 8388608000u64
            &&& elapsed_ms > 0 ==> (ThroughputSample {
                total_bytes: run.total_bytes,
                elapsed_ms,
            }).positive_and_finite()
        }),
{
    let digits = seq![49u8, 54u8];
    assert(digits.drop_last() =~= seq![49u8]);
    assert(seq![49u8].drop_last() =~= Seq::<u8>::empty());
    assert(crate::params::decimal_value(Seq::<u8>::empty()) == 0);
    assert(seq![49u8].last() == 49);
    assert(crate::params::decimal_value(seq![49u8]) == 1);
    assert(digits.last() == 54);
    assert(crate::params::decimal_value(digits) == 16);
    lemma_body_credit_accounting(chunk_sizes);
    lemma_uniform_run(DEFAULT_CYCLE_COUNT, DEFAULT_BODY_BYTES as u64);
}

} // verus!
