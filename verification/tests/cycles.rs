use h2s_bench::RequestDriver;
use h2s_bench::ThroughputSample;

#[test]
fn uniform_cycles_accumulate_exactly() {
    let mut driver = RequestDriver::new(5);
    let mut cycles = 0;
    while driver.should_submit() {
        driver.record_success(1000);
        cycles += 1;
    }
    assert_eq!(cycles, 5);
    assert_eq!(driver.total_bytes, 5000);
    let sample = driver.finish(250).expect("finished run must report");
    assert_eq!(sample.total_bytes, 5000);
    assert_eq!(sample.elapsed_ms, 250);
}

#[test]
fn failure_mid_run_reports_nothing() {
    let mut driver = RequestDriver::new(10);
    driver.record_success(4096);
    driver.record_success(4096);
    // A stream reset mid-body fails the cycle; the whole run aborts.
    driver.record_failure();
    assert!(!driver.should_submit());
    assert_eq!(driver.finish(123), None);
}

#[test]
fn unfinished_run_reports_nothing() {
    let mut driver = RequestDriver::new(3);
    driver.record_success(1);
    assert_eq!(driver.finish(99), None);
}

#[test]
fn full_benchmark_total_is_cycles_times_body() {
    let mut driver = RequestDriver::new(2000);
    while driver.should_submit() {
        driver.record_success(4 * 1024 * 1024);
    }
    let sample = driver.finish(1000).expect("finished run must report");
    assert_eq!(sample.total_bytes, 8_388_608_000);
    // 8_388_608_000 bytes in one second, rounded down to whole bytes/sec.
    assert_eq!(sample.bytes_per_sec(), 8_388_608_000);
    assert!(sample.total_bytes > 0 && sample.elapsed_ms > 0);
}

#[test]
fn throughput_rounds_down() {
    let sample = ThroughputSample { total_bytes: 1, elapsed_ms: 2000 };
    assert_eq!(sample.bytes_per_sec(), 0);
    let sample = ThroughputSample { total_bytes: 1500, elapsed_ms: 1000 };
    assert_eq!(sample.bytes_per_sec(), 1500);
    let sample = ThroughputSample { total_bytes: 999, elapsed_ms: 333 };
    assert_eq!(sample.bytes_per_sec(), 3000);
}

#[test]
fn interleaved_runs_do_not_interfere() {
    let mut first = RequestDriver::new(3);
    let mut second = RequestDriver::new(3);
    for _ in 0..3 {
        first.record_success(10);
        second.record_success(20);
    }
    assert_eq!(first.finish(7).expect("first run").total_bytes, 30);
    assert_eq!(second.finish(9).expect("second run").total_bytes, 60);
}
