use cosmos_agent::control::{
    require_destination, ConfigError, CycleError, LoopDirective, LoopPhase, ReportLoop,
};
use cosmos_agent::transport::{
    container_stats_path, containers_list_path, extract_http_body, http_get_request,
    http_post_head, u64_to_decimal,
};

#[test]
fn decimal_rendering() {
    assert_eq!(u64_to_decimal(0), "0");
    assert_eq!(u64_to_decimal(7), "7");
    assert_eq!(u64_to_decimal(10), "10");
    assert_eq!(u64_to_decimal(400), "400");
    assert_eq!(u64_to_decimal(u64::MAX), "18446744073709551615");
}

#[test]
fn get_request_text() {
    assert_eq!(
        http_get_request("/containers/json"),
        "GET /containers/json HTTP/1.1\r\n\r\n"
    );
}

#[test]
fn runtime_paths() {
    assert_eq!(containers_list_path(), "/containers/json");
    assert_eq!(container_stats_path("abc123"), "/containers/abc123/stats");
}

#[test]
fn post_head_text() {
    assert_eq!(
        http_post_head("collector.example:8080", "/ingest", 42),
        "POST /ingest HTTP/1.1\r\n\
         Host: collector.example:8080\r\n\
         Connection: close\r\n\
         Content-Type: application/json\r\n\
         Accept: application/json\r\n\
         Content-Length: 42\r\n\r\n"
    );
}

#[test]
fn body_extraction_after_headers() {
    let response = b"HTTP/1.1 200 OK\r\nContent-Type: application/json\r\n\r\n[{}]".to_vec();
    assert_eq!(extract_http_body(&response), b"[{}]".to_vec());
}

#[test]
fn body_extraction_takes_last_separator() {
    let response = b"a\r\n\r\nb\r\n\r\nc".to_vec();
    assert_eq!(extract_http_body(&response), b"c".to_vec());
}

#[test]
fn body_extraction_without_separator_returns_all() {
    let response = b"no headers here".to_vec();
    assert_eq!(extract_http_body(&response), b"no headers here".to_vec());
}

#[test]
fn body_extraction_of_empty_body() {
    let response = b"HTTP/1.1 204 No Content\r\n\r\n".to_vec();
    assert_eq!(extract_http_body(&response), Vec::<u8>::new());
}

#[test]
fn missing_destination_is_fatal_configuration_error() {
    assert!(matches!(
        require_destination(None),
        Err(ConfigError::MissingDestination)
    ));
}

#[test]
fn present_destination_is_accepted_unchanged() {
    let dest = require_destination(Some("http://collector:8080/".to_string()));
    assert_eq!(dest.unwrap(), "http://collector:8080/");
}

#[test]
fn loop_sleeps_after_a_delivered_report() {
    let mut l = ReportLoop::new(5);
    assert_eq!(l.phase, LoopPhase::Idle);
    l.timer_fired();
    assert_eq!(l.phase, LoopPhase::Reporting);
    let d = l.cycle_ended(&Ok(()));
    assert_eq!(l.phase, LoopPhase::Idle);
    assert_eq!(d, LoopDirective::Sleep { seconds: 5 });
}

#[test]
fn loop_stops_on_any_cycle_failure() {
    for e in [
        CycleError::Transport,
        CycleError::Serialization,
        CycleError::Delivery,
    ] {
        let mut l = ReportLoop::new(5);
        l.timer_fired();
        assert_eq!(l.cycle_ended(&Err(e)), LoopDirective::Stop);
        assert_eq!(l.phase, LoopPhase::Idle);
    }
}
