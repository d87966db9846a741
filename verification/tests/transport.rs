use orbit_ws_transport::connect::{connect_error_message, prepare_connect, RemoteTransportConfig};
use orbit_ws_transport::framing::protocol_lines;
use orbit_ws_transport::pump::{reader_on_event, writer_on_send_result, InboundEvent, ReaderStep};
use orbit_ws_transport::state::ConnectionState;
use orbit_ws_transport::url::normalize_ws_url;

#[test]
fn normalize_ws_url_rewrites_http_scheme() {
    let value =
        normalize_ws_url("https://bridge.example.workers.dev/ws/session-1").expect("ws url");
    assert_eq!(value, "wss://bridge.example.workers.dev/ws/session-1");
}

#[test]
fn normalize_ws_url_keeps_ws_scheme() {
    let value =
        normalize_ws_url("wss://bridge.example.workers.dev/ws/session-1").expect("ws url");
    assert_eq!(value, "wss://bridge.example.workers.dev/ws/session-1");
}

#[test]
fn protocol_lines_splits_multiline_payload() {
    let payload = "{\"id\":1}\n{\"id\":2}\n";
    let lines: Vec<String> = protocol_lines(payload);
    assert_eq!(lines, vec!["{\"id\":1}".to_string(), "{\"id\":2}".to_string()]);
}

#[test]
fn protocol_lines_trims_and_skips_empty_lines() {
    let payload = "  {\"id\":1}  \n\n\t{\"id\":2}\r\n";
    let lines: Vec<String> = protocol_lines(payload);
    assert_eq!(lines, vec!["{\"id\":1}".to_string(), "{\"id\":2}".to_string()]);
}

#[test]
fn normalize_ws_url_rewrites_plain_http_scheme() {
    let value = normalize_ws_url("http://host/path").expect("ws url");
    assert_eq!(value, "ws://host/path");
}

#[test]
fn normalize_ws_url_keeps_plain_ws_scheme() {
    let value = normalize_ws_url("ws://host/path").expect("ws url");
    assert_eq!(value, "ws://host/path");
}

#[test]
fn normalize_ws_url_trims_surrounding_whitespace() {
    let value = normalize_ws_url("  ws://host/path \t").expect("ws url");
    assert_eq!(value, "ws://host/path");
}

#[test]
fn normalize_ws_url_rejects_empty_input() {
    let err = normalize_ws_url("").expect_err("configuration error");
    assert_eq!(err, "Orbit provider requires orbitWsUrl in app settings.");
}

#[test]
fn normalize_ws_url_rejects_blank_input() {
    let err = normalize_ws_url("   ").expect_err("configuration error");
    assert_eq!(err, "Orbit provider requires orbitWsUrl in app settings.");
}

#[test]
fn normalize_ws_url_rejects_unknown_scheme() {
    let err = normalize_ws_url("ftp://x").expect_err("scheme error");
    assert_eq!(err, "orbitWsUrl must start with https://, http://, wss://, or ws://");
}

#[test]
fn protocol_lines_of_empty_payload_is_empty() {
    assert_eq!(protocol_lines(""), Vec::<String>::new());
}

#[test]
fn protocol_lines_of_blank_payload_is_empty() {
    assert_eq!(protocol_lines("\n\n"), Vec::<String>::new());
}

#[test]
fn disconnect_completes_each_entry_exactly_once() {
    let mut state = ConnectionState::new();
    assert!(state.is_connected());
    state.register_request(1);
    state.register_request(2);
    assert_eq!(state.pending_len(), 2);

    let failed = state.mark_disconnected();
    assert_eq!(failed, vec![1, 2]);
    assert!(!state.is_connected());
    assert_eq!(state.pending_len(), 0);

    let failed_again = state.mark_disconnected();
    assert_eq!(failed_again, Vec::<u64>::new());
    assert!(!state.is_connected());
    assert_eq!(state.pending_len(), 0);
}

#[test]
fn echoed_text_frame_dispatches_one_line() {
    let step = reader_on_event(InboundEvent::Text("ping\n".to_string()));
    assert_eq!(step, ReaderStep::Dispatch(vec!["ping".to_string()]));
}

#[test]
fn close_frame_stops_reader_and_fails_pending_entries() {
    let mut state = ConnectionState::new();
    state.register_request(7);

    let step = reader_on_event(InboundEvent::Close);
    assert_eq!(step, ReaderStep::Stop);

    let failed = state.mark_disconnected();
    assert_eq!(failed, vec![7]);
    assert!(!state.is_connected());
}

#[test]
fn multiline_text_frame_dispatches_lines_in_order() {
    let step = reader_on_event(InboundEvent::Text("{\"a\":1}\n{\"b\":2}\n".to_string()));
    assert_eq!(
        step,
        ReaderStep::Dispatch(vec!["{\"a\":1}".to_string(), "{\"b\":2}".to_string()])
    );
}

#[test]
fn binary_frame_with_valid_utf8_dispatches_lines() {
    let bytes = "one\ntwo\n".as_bytes().to_vec();
    let step = reader_on_event(InboundEvent::Binary(bytes));
    assert_eq!(step, ReaderStep::Dispatch(vec!["one".to_string(), "two".to_string()]));
}

#[test]
fn binary_frame_with_invalid_utf8_is_discarded() {
    let step = reader_on_event(InboundEvent::Binary(vec![0xFF, 0xFE, 0xFD]));
    assert_eq!(step, ReaderStep::Continue);
}

#[test]
fn control_frames_are_ignored_and_errors_stop_the_reader() {
    assert_eq!(reader_on_event(InboundEvent::Ping), ReaderStep::Continue);
    assert_eq!(reader_on_event(InboundEvent::Pong), ReaderStep::Continue);
    assert_eq!(reader_on_event(InboundEvent::Frame), ReaderStep::Continue);
    assert_eq!(reader_on_event(InboundEvent::StreamError), ReaderStep::Stop);
}

#[test]
fn writer_keeps_going_while_sends_succeed() {
    let mut state = ConnectionState::new();
    state.register_request(3);
    let (stop, failed) = writer_on_send_result(&mut state, true);
    assert!(!stop);
    assert_eq!(failed, Vec::<u64>::new());
    assert!(state.is_connected());
    assert_eq!(state.pending_len(), 1);
}

#[test]
fn writer_failure_runs_disconnect_protocol_and_stops() {
    let mut state = ConnectionState::new();
    state.register_request(3);
    let (stop, failed) = writer_on_send_result(&mut state, false);
    assert!(stop);
    assert_eq!(failed, vec![3]);
    assert!(!state.is_connected());

    let (stop_again, failed_again) = writer_on_send_result(&mut state, false);
    assert!(stop_again);
    assert_eq!(failed_again, Vec::<u64>::new());
}

#[test]
fn prepare_connect_accepts_only_the_websocket_variant() {
    let err = prepare_connect(&RemoteTransportConfig::Other).expect_err("config error");
    assert_eq!(err, "invalid transport config for orbit websocket transport");
}

#[test]
fn prepare_connect_normalizes_the_endpoint() {
    let config = RemoteTransportConfig::OrbitWs { ws_url: "https://relay.example/ws".to_string() };
    let url = prepare_connect(&config).expect("ws url");
    assert_eq!(url, "wss://relay.example/ws");
}

#[test]
fn prepare_connect_passes_endpoint_errors_through() {
    let config = RemoteTransportConfig::OrbitWs { ws_url: "ftp://x".to_string() };
    let err = prepare_connect(&config).expect_err("scheme error");
    assert_eq!(err, "orbitWsUrl must start with https://, http://, wss://, or ws://");
}

#[test]
fn connect_error_message_names_url_and_cause() {
    let message = connect_error_message("wss://relay.example/ws", "timed out");
    assert_eq!(message, "Failed to connect to Orbit relay at wss://relay.example/ws: timed out");
}
