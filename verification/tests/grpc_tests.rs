use strobmock::grpc::{EchoRequest, EchoResponse, EchoServiceImpl};

fn request(message: &str, payload: Vec<u8>, repeat: u32) -> EchoRequest {
    EchoRequest { message: message.to_string(), payload, repeat }
}

#[test]
fn test_grpc_unary_echo() {
    let response = EchoServiceImpl.echo(request("hello", vec![1, 2, 3], 0));
    assert_eq!(response.message, "hello");
    assert_eq!(response.payload, vec![1, 2, 3]);
}

#[test]
fn test_grpc_server_stream() {
    let responses = EchoServiceImpl.server_stream_echo(request("tick", vec![9; 4], 3));
    assert_eq!(responses.len(), 3);
    assert!(responses
        .iter()
        .all(|r| r.message == "tick" && r.payload == vec![9; 4]));
}

#[test]
fn test_grpc_server_stream_repeat_zero_sends_one() {
    let responses = EchoServiceImpl.server_stream_echo(request("once", vec![], 0));
    assert_eq!(responses, vec![EchoResponse { message: "once".to_string(), payload: vec![] }]);
}

#[test]
fn test_grpc_bidi_echo() {
    let responses: Vec<EchoResponse> = (0..5u32)
        .map(|i| {
            let item: Result<EchoRequest, String> = Ok(request(&format!("m{i}"), vec![i as u8], 0));
            EchoServiceImpl.bidi_echo(item).unwrap()
        })
        .collect();
    assert_eq!(responses.len(), 5);
    for (i, resp) in responses.iter().enumerate() {
        assert_eq!(resp.message, format!("m{i}"));
        assert_eq!(resp.payload, vec![i as u8]);
    }
}

#[test]
fn test_grpc_bidi_passes_errors_on() {
    let item: Result<EchoRequest, String> = Err("stream broke".to_string());
    assert_eq!(EchoServiceImpl.bidi_echo(item), Err("stream broke".to_string()));
}

#[test]
fn test_grpc_calls_agree() {
    let req = request("same", vec![4, 5], 2);
    let unary = EchoServiceImpl.echo(req.clone());
    let streamed = EchoServiceImpl.server_stream_echo(req.clone());
    let bidi = EchoServiceImpl.bidi_echo::<()>(Ok(req)).unwrap();
    assert!(streamed.iter().all(|r| *r == unary));
    assert_eq!(bidi, unary);
}
