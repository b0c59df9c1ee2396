//! Flow-control window model.
//!
//! A sender may have at most one window's worth of unacknowledged bytes in
//! flight on a stream. A consumer that fails to release credit therefore
//! stalls the sender as soon as the body outgrows the window. These
//! functions run the consumer against that model: because it credits every
//! chunk at once, the in-flight count returns to zero after every chunk,
//! and a body of any total size goes through as long as each single chunk
//! fits the window.

use vstd::prelude::*;

use crate::consumer::ConsumerPhase;
use crate::consumer::FlowControlledBodyConsumer;
use crate::consumer::lemma_sum_nonneg;
use crate::consumer::lemma_sum_take_le;
use crate::consumer::lemma_sum_take_succ;
use crate::consumer::sum_of;

verus! {

/// Drains one whole body through a fresh consumer: every chunk, the
/// end-of-chunks signal, then the trailers. Returns the reported byte
/// total together with the total flow-control credit issued; both equal
/// the sum of the chunk sizes.
pub fn drain_body(chunk_sizes: &Vec<u64>) -> (r: (u64, u64))
    requires
        sum_of(chunk_sizes@) <= u64::MAX,
    ensures
        r.0 == sum_of(chunk_sizes@),
        r.1 == sum_of(chunk_sizes@),
{
    let mut consumer = FlowControlledBodyConsumer::new();
    let mut credit_issued: u64 = 0;
    let mut i: usize = 0;
    proof {
        assert(chunk_sizes@.take(0) =~= Seq::<u64>::empty());
    }
    while i < chunk_sizes.len()
        invariant
            0 <= i <= chunk_sizes@.len(),
            sum_of(chunk_sizes@) <= u64::MAX,
            consumer == FlowControlledBodyConsumer::spec_new().spec_after_chunks(
                chunk_sizes@.take(i as int),
            ),
            consumer.phase == ConsumerPhase::Streaming,
            consumer.consumed == sum_of(chunk_sizes@.take(i as int)),
            credit_issued == consumer.credited,
            consumer.credit_balanced(),
        decreases chunk_sizes@.len() - i,
    {
        proof {
            lemma_sum_take_succ(chunk_sizes@, i as int);
            lemma_sum_take_le(chunk_sizes@, i + 1);
            lemma_sum_nonneg(chunk_sizes@.take(i as int));
            assert(chunk_sizes@.take(i as int + 1).drop_last() =~= chunk_sizes@.take(i as int));
            assert(chunk_sizes@.take(i as int + 1).last() == chunk_sizes@[i as int]);
        }
        let credit = consumer.on_chunk(chunk_sizes[i]);
        credit_issued = credit_issued + credit;
        i = i + 1;
    }
    proof {
        assert(chunk_sizes@.take(chunk_sizes@.len() as int) =~= chunk_sizes@);
    }
    consumer.on_end_of_stream();
    let total = consumer.on_trailers();
    (total, credit_issued)
}

/// Runs the consumer against a sender limited to `window` in-flight bytes.
/// Each chunk is sent only when it fits the unused part of the window;
/// because the consumer credits every chunk at once, the whole window is
/// free again before the next chunk, so the transfer completes — with the
/// full byte total — exactly when every single chunk fits the window,
/// however large the body is. A `None` is the stall of a consumer that
/// could not accept some chunk.
pub fn simulate_transfer(window: u64, chunk_sizes: &Vec<u64>) -> (r: Option<u64>)
    requires
        sum_of(chunk_sizes@) <= u64::MAX,
    ensures
        r == (if forall|j: int|
            0 <= j < chunk_sizes@.len() ==> chunk_sizes@[j] <= window {
            Some(sum_of(chunk_sizes@) as u64)
        } else {
            None::<u64>
        }),
{
    let mut consumer = FlowControlledBodyConsumer::new();
    let mut in_flight: u64 = 0;
    let mut i: usize = 0;
    proof {
        assert(chunk_sizes@.take(0) =~= Seq::<u64>::empty());
    }
    while i < chunk_sizes.len()
        invariant
            0 <= i <= chunk_sizes@.len(),
            sum_of(chunk_sizes@) <= u64::MAX,
            consumer == FlowControlledBodyConsumer::spec_new().spec_after_chunks(
                chunk_sizes@.take(i as int),
            ),
            consumer.phase == ConsumerPhase::Streaming,
            consumer.consumed == sum_of(chunk_sizes@.take(i as int)),
            consumer.credit_balanced(),
            in_flight == 0,
            forall|j: int| 0 <= j < i ==> chunk_sizes@[j] <= window,
        decreases chunk_sizes@.len() - i,
    {
        proof {
            lemma_sum_take_succ(chunk_sizes@, i as int);
            lemma_sum_take_le(chunk_sizes@, i + 1);
            lemma_sum_nonneg(chunk_sizes@.take(i as int));
            assert(chunk_sizes@.take(i as int + 1).drop_last() =~= chunk_sizes@.take(i as int));
            assert(chunk_sizes@.take(i as int + 1).last() == chunk_sizes@[i as int]);
        }
        let size = chunk_sizes[i];
        if size > window - in_flight {
            // The window is exhausted before this chunk can be sent: a
            // consumer that had withheld credit would wait here forever.
            return None;
        }
        in_flight = in_flight + size;
        let credit = consumer.on_chunk(size);
        in_flight = in_flight - credit;
        i = i + 1;
    }
    proof {
        assert(chunk_sizes@.take(chunk_sizes@.len() as int) =~= chunk_sizes@);
    }
    consumer.on_end_of_stream();
    let total = consumer.on_trailers();
    Some(total)
}

} // verus!
