use h2s_bench::response_content_type;
use h2s_bench::server_settings;
use h2s_bench::synthetic_body;
use h2s_bench::ConnectionHandler;
use h2s_bench::DEFAULT_BODY_BYTES;
use h2s_bench::ENLARGED_WINDOW_SIZE;

#[test]
fn windows_are_enlarged_before_serving() {
    let settings = server_settings();
    assert!(settings.multiplexed_only);
    assert_eq!(settings.initial_stream_window, 2_147_483_646);
    assert_eq!(settings.initial_connection_window, ENLARGED_WINDOW_SIZE);
}

#[test]
fn every_request_gets_the_same_response() {
    let mut handler = ConnectionHandler::new(DEFAULT_BODY_BYTES);
    for served in 0..5u64 {
        assert_eq!(handler.requests_served, served);
        let plan = handler.on_request();
        assert_eq!(plan.status, 200);
        assert_eq!(plan.body_len, 4 * 1024 * 1024);
    }
    assert_eq!(handler.requests_served, 5);
    assert_eq!(response_content_type(), "application/octet-stream");
}

#[test]
fn handler_state_is_connection_scoped() {
    let mut first = ConnectionHandler::new(DEFAULT_BODY_BYTES);
    let second = ConnectionHandler::new(DEFAULT_BODY_BYTES);
    first.on_request();
    first.on_request();
    assert_eq!(first.requests_served, 2);
    assert_eq!(second.requests_served, 0);
}

#[test]
fn synthetic_body_is_filled_with_the_constant_byte() {
    let body = synthetic_body(5);
    assert_eq!(body, vec![65u8; 5]);
    assert_eq!(synthetic_body(0).len(), 0);
    let full = synthetic_body(DEFAULT_BODY_BYTES);
    assert_eq!(full.len(), 4 * 1024 * 1024);
    assert!(full.iter().all(|b| *b == 65));
}
