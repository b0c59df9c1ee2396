use h2s_bench::drain_body;
use h2s_bench::simulate_transfer;
use h2s_bench::BodyError;
use h2s_bench::ConsumerPhase;
use h2s_bench::FlowControlledBodyConsumer;

#[test]
fn chunks_are_credited_and_summed() {
    let mut consumer = FlowControlledBodyConsumer::new();
    assert_eq!(consumer.phase, ConsumerPhase::Streaming);
    assert_eq!(consumer.on_chunk(3), 3);
    assert_eq!(consumer.on_chunk(5), 5);
    assert_eq!(consumer.on_chunk(7), 7);
    assert_eq!(consumer.phase, ConsumerPhase::Streaming);
    assert_eq!(consumer.consumed, 15);
    assert_eq!(consumer.credited, 15);
    consumer.on_end_of_stream();
    assert_eq!(consumer.phase, ConsumerPhase::AwaitingTrailers);
    let total = consumer.on_trailers();
    assert_eq!(total, 15);
    assert_eq!(consumer.phase, ConsumerPhase::Done);
}

#[test]
fn drained_body_conserves_credit() {
    let sizes: Vec<u64> = vec![16384, 16384, 1, 0, 4096];
    let (total, credit) = drain_body(&sizes);
    assert_eq!(total, 36865);
    assert_eq!(credit, 36865);
}

#[test]
fn zero_chunk_body_reports_zero() {
    let mut consumer = FlowControlledBodyConsumer::new();
    consumer.on_end_of_stream();
    assert_eq!(consumer.phase, ConsumerPhase::AwaitingTrailers);
    assert_eq!(consumer.consumed, 0);
    let total = consumer.on_trailers();
    assert_eq!(total, 0);
    let (total2, credit2) = drain_body(&Vec::new());
    assert_eq!(total2, 0);
    assert_eq!(credit2, 0);
}

#[test]
fn stream_error_fails_the_body() {
    let mut consumer = FlowControlledBodyConsumer::new();
    consumer.on_chunk(100);
    let e = consumer.on_error();
    assert_eq!(e, BodyError::Stream);
    assert_eq!(consumer.phase, ConsumerPhase::Failed);
}

#[test]
fn trailer_error_fails_even_after_all_bytes() {
    let mut consumer = FlowControlledBodyConsumer::new();
    consumer.on_chunk(4096);
    consumer.on_end_of_stream();
    let e = consumer.on_error();
    assert_eq!(e, BodyError::Trailers);
    assert_eq!(consumer.phase, ConsumerPhase::Failed);
    assert_eq!(consumer.consumed, 4096);
}

#[test]
fn body_larger_than_window_still_completes() {
    // A 4 MiB body in 16 KiB chunks against the smallest usual window:
    // crediting each chunk at once means the transfer never stalls.
    let sizes: Vec<u64> = vec![16384; 256];
    assert_eq!(simulate_transfer(65535, &sizes), Some(4 * 1024 * 1024));
}

#[test]
fn oversized_chunk_stalls_the_window() {
    let sizes: Vec<u64> = vec![16384, 65536, 16384];
    assert_eq!(simulate_transfer(65535, &sizes), None);
    assert_eq!(simulate_transfer(65536, &sizes), Some(98304));
}
