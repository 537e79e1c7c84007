use strobmock::http::{
    health_body, http_bytes, http_echo, sse_ping_event, ws_step, BytesError, WsEvent, WsFrame,
    WsStep, MAX_SIZE, SSE_INTERVAL_MILLIS,
};

#[test]
fn test_echo_endpoint() {
    let body = http_echo(b"hello world".to_vec());
    assert_eq!(body.as_slice(), b"hello world");
}

#[test]
fn test_echo_keeps_empty_body() {
    let body: Vec<u8> = http_echo(Vec::new());
    assert!(body.is_empty());
}

#[test]
fn test_bytes_endpoint_valid() {
    let body = http_bytes(1024).unwrap();
    assert_eq!(body.len(), 1024);
    assert!(body.iter().all(|b| *b == 0));
}

#[test]
fn test_bytes_endpoint_exceeds_limit() {
    let err = http_bytes(104857601).unwrap_err();
    assert_eq!(err, BytesError::TooLarge);
    assert_eq!(err.status(), 400);
    assert_eq!(err.message(), "Requested size exceeds 100MB limit");
}

#[test]
fn test_bytes_at_limit_and_zero() {
    assert_eq!(MAX_SIZE, 104_857_600);
    assert_eq!(http_bytes(MAX_SIZE).unwrap().len(), 104_857_600);
    assert_eq!(http_bytes(0).unwrap().len(), 0);
}

#[test]
fn test_health_endpoint() {
    assert_eq!(health_body().as_bytes(), br#"{"status":"ok"}"#);
}

#[test]
fn test_sse_ping_event() {
    let ev = sse_ping_event();
    assert_eq!(ev.event, "message");
    assert_eq!(ev.data, "ping");
    assert_eq!(SSE_INTERVAL_MILLIS, 100);
}

#[test]
fn test_ws_echoes_text_and_binary() {
    let t: WsStep<String, Vec<u8>> = ws_step(WsEvent::Received(WsFrame::Text("hi".to_string())));
    assert_eq!(t, WsStep::Reply(WsFrame::Text("hi".to_string())));
    let b: WsStep<String, Vec<u8>> = ws_step(WsEvent::Received(WsFrame::Binary(vec![1, 2, 3])));
    assert_eq!(b, WsStep::Reply(WsFrame::Binary(vec![1, 2, 3])));
}

#[test]
fn test_ws_leaves_control_frames_to_the_transport() {
    let p: WsStep<String, Vec<u8>> = ws_step(WsEvent::Received(WsFrame::Ping(vec![7, 8])));
    assert_eq!(p, WsStep::Continue);
    let q: WsStep<String, Vec<u8>> = ws_step(WsEvent::Received(WsFrame::Pong(vec![7, 8])));
    assert_eq!(q, WsStep::Continue);
}

#[test]
fn test_ws_stops_on_close_end_and_errors() {
    let stop: WsStep<String, Vec<u8>> = WsStep::Stop;
    assert_eq!(ws_step::<String, Vec<u8>>(WsEvent::Received(WsFrame::Close)), stop);
    assert_eq!(ws_step::<String, Vec<u8>>(WsEvent::StreamEnded), WsStep::Stop);
    assert_eq!(ws_step::<String, Vec<u8>>(WsEvent::ReceiveFailed), WsStep::Stop);
    assert_eq!(ws_step::<String, Vec<u8>>(WsEvent::SendFailed), WsStep::Stop);
}
