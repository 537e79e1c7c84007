//! HTTP endpoints: `/echo`, `/bytes/{size}`, `/health`, `/sse` and `/ws`.

use vstd::prelude::*;

verus! {

/// Largest buffer that `/bytes/{size}` hands out: 100 MiB.
pub const MAX_SIZE: usize = 104_857_600;

/// Period, in milliseconds, between two events of the `/sse` stream.
pub const SSE_INTERVAL_MILLIS: u64 = 100;

/// `POST /echo`: the request body is handed back as it came.
pub fn http_echo<B>(body: B) -> (reply: B)
    ensures
        reply == body,
{
    body
}

/// Why `GET /bytes/{size}` refused a request.
#[derive(Debug, Clone, Copy, PartialEq, Eq, Structural)]
pub enum BytesError {
    /// The requested size is above [`MAX_SIZE`].
    TooLarge,
}

impl BytesError {
    /// The HTTP status that answers the refusal: 400 Bad Request.
    pub fn status(&self) -> (code: u16)
        ensures
            code == 400,
    {
        400
    }

    /// The plain-text body that goes with the refusal.
    pub fn message(&self) -> (text: &'static str)
        ensures
            text@ == "Requested size exceeds 100MB limit"@,
    {
        "Requested size exceeds 100MB limit"
    }
}

/// The body of a successful `GET /bytes/{size}`: `size` zero bytes.
pub open spec fn zero_filled(size: nat) -> Seq<u8> {
    Seq::new(size, |i: int| 0u8)
}

/// The body of `/bytes/{size}` is `size` bytes long and every byte of it is
/// zero, whatever the size.
pub proof fn lemma_zero_filled(size: nat)
    ensures
        zero_filled(size).len() == size,
        forall|i: int| 0 <= i < size ==> #[trigger] zero_filled(size)[i] == 0u8,
{
}

/// `GET /bytes/{size}`: a zero-filled buffer of `size` bytes, or
/// [`BytesError::TooLarge`] when `size` exceeds [`MAX_SIZE`].
pub fn http_bytes(size: usize) -> (res: Result<Vec<u8>, BytesError>)
    ensures
        size <= MAX_SIZE <==> res is Ok,
        size <= 100 * 1024 * 1024 <==> res is Ok,
        res matches Ok(body) ==> body@ == zero_filled(size as nat),
        res matches Ok(body) ==> body@.len() == size && forall|i: int| 0 <= i < body@.len() ==> body@[i] == 0u8,
        res matches Err(e) ==> e == BytesError::TooLarge,
{
    if size > MAX_SIZE {
        return Err(BytesError::TooLarge);
    }
    let body = vec![0u8; size];
    assert(body@ =~= zero_filled(size as nat));
    Ok(body)
}

/// `GET /health`: the JSON body of the baseline control target.
pub fn health_body() -> (body: &'static str)
    ensures
        body@ == "{\"status\":\"ok\"}"@,
{
    "{\"status\":\"ok\"}"
}

/// One server-sent event: its event name and its data line.
#[derive(Debug, Clone, PartialEq, Eq)]
pub struct SseEvent {
    pub event: String,
    pub data: String,
}

/// `GET /sse`: the event that the stream emits every
/// [`SSE_INTERVAL_MILLIS`] milliseconds, named `message` with data `ping`.
pub fn sse_ping_event() -> (ev: SseEvent)
    ensures
        ev.event@ == "message"@,
        ev.data@ == "ping"@,
{
    SseEvent { event: "message".to_owned(), data: "ping".to_owned() }
}

/// A WebSocket frame, with the text type `T` and the byte type `B` of the
/// transport that carries it.
#[derive(Debug, Clone, PartialEq, Eq)]
pub enum WsFrame<T, B> {
    Text(T),
    Binary(B),
    Ping(B),
    Pong(B),
    Close,
}

/// What the `/ws` echo loop has just observed.
#[derive(Debug, Clone, PartialEq, Eq)]
pub enum WsEvent<T, B> {
    /// A frame arrived from the client.
    Received(WsFrame<T, B>),
    /// The client stream ended.
    StreamEnded,
    /// Reading from the client failed.
    ReceiveFailed,
    /// Sending the last reply failed.
    SendFailed,
}

/// What the `/ws` echo loop does next.
#[derive(Debug, Clone, PartialEq, Eq)]
pub enum WsStep<T, B> {
    /// Send this frame back, then keep reading.
    Reply(WsFrame<T, B>),
    /// Send nothing and keep reading.
    Continue,
    /// Leave the loop and drop the connection.
    Stop,
}

/// The echo policy of `/ws` as a function of what was observed.
pub open spec fn ws_policy<T, B>(event: WsEvent<T, B>) -> WsStep<T, B> {
    match event {
        WsEvent::Received(WsFrame::Text(t)) => WsStep::Reply(WsFrame::Text(t)),
        WsEvent::Received(WsFrame::Binary(b)) => WsStep::Reply(WsFrame::Binary(b)),
        WsEvent::Received(WsFrame::Ping(_)) => WsStep::Continue,
        WsEvent::Received(WsFrame::Pong(_)) => WsStep::Continue,
        WsEvent::Received(WsFrame::Close) => WsStep::Stop,
        WsEvent::StreamEnded => WsStep::Stop,
        WsEvent::ReceiveFailed => WsStep::Stop,
        WsEvent::SendFailed => WsStep::Stop,
    }
}

/// `GET /ws`: one step of the echo loop. Text and binary frames are sent
/// back unchanged; pings and pongs get no reply from the loop, as the
/// WebSocket transport itself answers each ping with a pong carrying its
/// payload; a close frame, the end of the stream or any transport error
/// ends the loop.
pub fn ws_step<T, B>(event: WsEvent<T, B>) -> (step: WsStep<T, B>)
    ensures
        step == ws_policy(event),
{
    match event {
        WsEvent::Received(frame) => match frame {
            WsFrame::Text(t) => WsStep::Reply(WsFrame::Text(t)),
            WsFrame::Binary(b) => WsStep::Reply(WsFrame::Binary(b)),
            WsFrame::Ping(_) => WsStep::Continue,
            WsFrame::Pong(_) => WsStep::Continue,
            WsFrame::Close => WsStep::Stop,
        },
        WsEvent::StreamEnded => WsStep::Stop,
        WsEvent::ReceiveFailed => WsStep::Stop,
        WsEvent::SendFailed => WsStep::Stop,
    }
}

/// The `/ws` loop replies only to data frames, always with the very frame
/// it received; every text or binary frame gets that reply; control frames
/// never get one from the loop; and it stops exactly on a close frame, the
/// end of the stream or a failure.
pub proof fn lemma_ws_echo<T, B>(event: WsEvent<T, B>)
    ensures
        ws_policy(event) matches WsStep::Reply(f) ==> event == WsEvent::Received(f) && (f is Text || f is Binary),
        event matches WsEvent::Received(f) ==> ((f is Text || f is Binary) ==> ws_policy(event) == WsStep::Reply(f)),
        event matches WsEvent::Received(f) ==> ((f is Ping || f is Pong) ==> ws_policy(event) == WsStep::<T, B>::Continue),
        ws_policy(event) == WsStep::<T, B>::Stop <==> (event == WsEvent::<T, B>::Received(WsFrame::Close)
            || event is StreamEnded || event is ReceiveFailed || event is SendFailed),
{
}

} // verus!
