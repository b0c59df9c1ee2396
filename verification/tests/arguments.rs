use h2s_bench::frame_size_bytes;
use h2s_bench::frame_size_multiplier;
use h2s_bench::parse_u32;
use h2s_bench::request_target;
use h2s_bench::CLIENT_WINDOW_SIZE;
use h2s_bench::DEFAULT_CYCLE_COUNT;
use h2s_bench::DEFAULT_FRAME_SIZE_MULTIPLIER;

#[test]
fn numeric_argument_scales_the_frame_size() {
    let arg = b"16".to_vec();
    let multiplier = frame_size_multiplier(Some(&arg));
    assert_eq!(multiplier, 16);
    assert_eq!(frame_size_bytes(multiplier), 16384);
    let arg = b"64".to_vec();
    assert_eq!(frame_size_bytes(frame_size_multiplier(Some(&arg))), 65536);
}

#[test]
fn missing_argument_falls_back_to_the_default() {
    assert_eq!(frame_size_multiplier(None), 16);
    assert_eq!(DEFAULT_FRAME_SIZE_MULTIPLIER, 16);
}

#[test]
fn unparsable_argument_falls_back_to_the_default() {
    assert_eq!(frame_size_multiplier(Some(&b"fast".to_vec())), 16);
    assert_eq!(frame_size_multiplier(Some(&b"12q".to_vec())), 16);
    assert_eq!(frame_size_multiplier(Some(&b"".to_vec())), 16);
    assert_eq!(frame_size_multiplier(Some(&b"+".to_vec())), 16);
    assert_eq!(frame_size_multiplier(Some(&b"-8".to_vec())), 16);
    assert_eq!(frame_size_multiplier(Some(&b"4294967296".to_vec())), 16);
}

#[test]
fn decimal_parsing_is_exact() {
    assert_eq!(parse_u32(&b"0".to_vec()), Some(0));
    assert_eq!(parse_u32(&b"0016".to_vec()), Some(16));
    assert_eq!(parse_u32(&b"+8".to_vec()), Some(8));
    assert_eq!(parse_u32(&b"4294967295".to_vec()), Some(u32::MAX));
    assert_eq!(parse_u32(&b"4294967296".to_vec()), None);
    assert_eq!(parse_u32(&b"99999999999999999999".to_vec()), None);
    assert_eq!(parse_u32(&b" 7".to_vec()), None);
    assert_eq!(parse_u32(&b"7 ".to_vec()), None);
}

#[test]
fn fixed_request_shape_and_windows() {
    assert_eq!(request_target(), "http://localhost/");
    assert_eq!(CLIENT_WINDOW_SIZE, 1024 * 1024 * 1024);
    assert_eq!(DEFAULT_CYCLE_COUNT, 2000);
}
