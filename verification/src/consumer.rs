//! Client-side response-body consumer.
//!
//! A response body arrives as a sequence of data chunks followed by an
//! optional trailer block. The consumer is an explicit state machine,
//! driven by the task that polls the protocol engine: every chunk must be
//! credited back to the stream's flow controller at once (otherwise the
//! sender stalls when the advertised window is exhausted), and the total
//! byte count is reported only after the trailers have been read.

use vstd::prelude::*;

verus! {

/// Phase of the body consumer's state machine.
#[derive(Clone, Copy, PartialEq, Eq, Structural, Debug)]
pub enum ConsumerPhase {
    /// Draining data chunks.
    Streaming,
    /// All chunks received; waiting for the trailer block.
    AwaitingTrailers,
    /// Trailers read; the byte total has been reported.
    Done,
    /// A protocol error ended the exchange; no total is reported.
    Failed,
}

/// Which part of the exchange a protocol error interrupted.
#[derive(Clone, Copy, PartialEq, Eq, Structural, Debug)]
pub enum BodyError {
    /// The error arrived while data chunks were still being read.
    Stream,
    /// The error arrived while waiting for the trailer block.
    Trailers,
}

/// Sum of a sequence of chunk sizes, as a mathematical integer.
pub open spec fn sum_of(sizes: Seq<u64>) -> int
    decreases sizes.len(),
{
    if sizes.len() == 0 {
        0
    } else {
        sum_of(sizes.drop_last()) + sizes.last()
    }
}

/// Drains one response body and accounts for flow-control credit.
#[derive(Clone, Copy, PartialEq, Eq, Structural, Debug)]
pub struct FlowControlledBodyConsumer {
    /// Current phase of the exchange.
    pub phase: ConsumerPhase,
    /// Bytes consumed from the body so far.
    pub consumed: u64,
    /// Flow-control credit released back to the sender so far.
    pub credited: u64,
}

impl FlowControlledBodyConsumer {
    /// Every consumed byte has been credited back: under-crediting stalls
    /// the sender, over-crediting is a protocol violation.
    pub open spec fn credit_balanced(self) -> bool {
        self.credited == self.consumed
    }

    /// The state a consumer starts a fresh exchange in.
    pub open spec fn spec_new() -> Self {
        FlowControlledBodyConsumer {
            phase: ConsumerPhase::Streaming,
            consumed: 0,
            credited: 0,
        }
    }

    /// Transition on one data chunk of `len` bytes.
    pub open spec fn spec_on_chunk(self, len: u64) -> Self {
        FlowControlledBodyConsumer {
            phase: self.phase,
            consumed: (self.consumed + len) as u64,
            credited: (self.credited + len) as u64,
        }
    }

    /// Transition on the end-of-chunks signal.
    pub open spec fn spec_on_end_of_stream(self) -> Self {
        FlowControlledBodyConsumer {
            phase: ConsumerPhase::AwaitingTrailers,
            consumed: self.consumed,
            credited: self.credited,
        }
    }

    /// Transition on a successful trailer read (present or absent).
    pub open spec fn spec_on_trailers(self) -> Self {
        FlowControlledBodyConsumer {
            phase: ConsumerPhase::Done,
            consumed: self.consumed,
            credited: self.credited,
        }
    }

    /// Consumer state after draining chunks of the given sizes, in order.
    pub open spec fn spec_after_chunks(self, sizes: Seq<u64>) -> Self
        decreases sizes.len(),
    {
        if sizes.len() == 0 {
            self
        } else {
            self.spec_after_chunks(sizes.drop_last()).spec_on_chunk(sizes.last())
        }
    }

    /// Consumer state after a complete, error-free exchange: all chunks,
    /// the end-of-chunks signal, then the trailers.
    pub open spec fn spec_run_body(sizes: Seq<u64>) -> Self {
        Self::spec_new().spec_after_chunks(sizes).spec_on_end_of_stream().spec_on_trailers()
    }

    pub fn new() -> (c: Self)
        ensures
            c == Self::spec_new(),
    {
        FlowControlledBodyConsumer {
            phase: ConsumerPhase::Streaming,
            consumed: 0,
            credited: 0,
        }
    }

    /// A data chunk of `len` bytes arrived. Returns the flow-control credit
    /// that must be released to the stream before the next chunk is awaited.
    pub fn on_chunk(&mut self, len: u64) -> (credit: u64)
        requires
            old(self).phase == ConsumerPhase::Streaming,
            old(self).consumed + len <= u64::MAX,
            old(self).credited + len <= u64::MAX,
        ensures
            *final(self) == old(self).spec_on_chunk(len),
            credit == len,
    {
        self.consumed = self.consumed + len;
        self.credited = self.credited + len;
        len
    }

    /// The end-of-chunks signal arrived: no more data, trailers come next.
    pub fn on_end_of_stream(&mut self)
        requires
            old(self).phase == ConsumerPhase::Streaming,
        ensures
            *final(self) == old(self).spec_on_end_of_stream(),
    {
        self.phase = ConsumerPhase::AwaitingTrailers;
    }

    /// The trailer block was read (it may have been absent). The exchange is
    /// complete and the total byte count is reported.
    pub fn on_trailers(&mut self) -> (total: u64)
        requires
            old(self).phase == ConsumerPhase::AwaitingTrailers,
        ensures
            *final(self) == old(self).spec_on_trailers(),
            total == old(self).consumed,
    {
        self.phase = ConsumerPhase::Done;
        self.consumed
    }

    /// A protocol error ended the exchange. No partial total is reported,
    /// even when every body byte had already been consumed.
    pub fn on_error(&mut self) -> (e: BodyError)
        requires
            old(self).phase == ConsumerPhase::Streaming
                || old(self).phase == ConsumerPhase::AwaitingTrailers,
        ensures
            final(self).phase == ConsumerPhase::Failed,
            final(self).consumed == old(self).consumed,
            final(self).credited == old(self).credited,
            e == (if old(self).phase == ConsumerPhase::Streaming {
                BodyError::Stream
            } else {
                BodyError::Trailers
            }),
    {
        let e = if matches!(self.phase, ConsumerPhase::Streaming) {
            BodyError::Stream
        } else {
            BodyError::Trailers
        };
        self.phase = ConsumerPhase::Failed;
        e
    }
}

/// The sum of chunk sizes is never negative.
pub proof fn lemma_sum_nonneg(sizes: Seq<u64>)
    ensures
        sum_of(sizes) >= 0,
    decreases sizes.len(),
{
    if sizes.len() > 0 {
        lemma_sum_nonneg(sizes.drop_last());
    }
}

/// Draining a prefix of a body never consumes more than the whole body.
pub proof fn lemma_sum_take_le(sizes: Seq<u64>, i: int)
    requires
        0 <= i <= sizes.len(),
    ensures
        sum_of(sizes.take(i)) <= sum_of(sizes),
    decreases sizes.len(),
{
    if i == sizes.len() {
        assert(sizes.take(i) =~= sizes);
    } else {
        assert(sizes.take(i) =~= sizes.drop_last().take(i));
        lemma_sum_take_le(sizes.drop_last(), i);
    }
}

/// Chunk draining, step by step: one more chunk adds its size to the sum.
pub proof fn lemma_sum_take_succ(sizes: Seq<u64>, i: int)
    requires
        0 <= i < sizes.len(),
    ensures
        sum_of(sizes.take(i + 1)) == sum_of(sizes.take(i)) + sizes[i],
{
    assert(sizes.take(i + 1).drop_last() =~= sizes.take(i));
    assert(sizes.take(i + 1).last() == sizes[i]);
}

/// After draining chunks of sizes s1..sn (with the total fitting the byte
/// counter), a fresh consumer has consumed exactly s1+..+sn bytes and has
/// credited back exactly the same amount: no credit is lost and none is
/// issued twice. It is still streaming until the end-of-chunks signal.
pub proof fn lemma_chunks_conserve_credit(sizes: Seq<u64>)
    requires
        sum_of(sizes) <= u64::MAX,
    ensures
        FlowControlledBodyConsumer::spec_new().spec_after_chunks(sizes).phase
            == ConsumerPhase::Streaming,
        FlowControlledBodyConsumer::spec_new().spec_after_chunks(sizes).consumed == sum_of(sizes),
        FlowControlledBodyConsumer::spec_new().spec_after_chunks(sizes).credited == sum_of(sizes),
    decreases sizes.len(),
{
    if sizes.len() > 0 {
        lemma_sum_nonneg(sizes.drop_last());
        lemma_chunks_conserve_credit(sizes.drop_last());
    }
}

/// A full error-free exchange over a body of chunk sizes s1..sn ends `Done`
/// with consumed bytes and issued credit both equal to s1+..+sn.
pub proof fn lemma_body_credit_accounting(sizes: Seq<u64>)
    requires
        sum_of(sizes) <= u64::MAX,
    ensures
        FlowControlledBodyConsumer::spec_run_body(sizes).phase == ConsumerPhase::Done,
        FlowControlledBodyConsumer::spec_run_body(sizes).consumed == sum_of(sizes),
        FlowControlledBodyConsumer::spec_run_body(sizes).credited == sum_of(sizes),
        FlowControlledBodyConsumer::spec_run_body(sizes).credit_balanced(),
{
    lemma_chunks_conserve_credit(sizes);
}

/// A zero-chunk body moves the consumer straight from `Streaming` to
/// `AwaitingTrailers`, and the exchange reports zero bytes.
pub proof fn lemma_empty_body()
    ensures
        FlowControlledBodyConsumer::spec_new().spec_after_chunks(Seq::empty())
            == FlowControlledBodyConsumer::spec_new(),
        FlowControlledBodyConsumer::spec_new().spec_on_end_of_stream().phase
            == ConsumerPhase::AwaitingTrailers,
        FlowControlledBodyConsumer::spec_run_body(Seq::empty()).phase == ConsumerPhase::Done,
        FlowControlledBodyConsumer::spec_run_body(Seq::empty()).consumed == 0,
        FlowControlledBodyConsumer::spec_run_body(Seq::empty()).credited == 0,
{
}

} // verus!
