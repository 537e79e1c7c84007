//! The `mock.EchoService` gRPC service: unary, server-streaming and
//! bidirectional-streaming echo.

use vstd::prelude::*;

verus! {

/// `mock.EchoRequest`: a message, an opaque payload and, for the
/// server-streaming call, how many responses to send.
#[derive(Debug, Clone, PartialEq, Eq, Default)]
pub struct EchoRequest {
    pub message: String,
    pub payload: Vec<u8>,
    pub repeat: u32,
}

/// `mock.EchoResponse`: the echoed message and payload.
#[derive(Debug, Clone, PartialEq, Eq, Default)]
pub struct EchoResponse {
    pub message: String,
    pub payload: Vec<u8>,
}

/// The response that mirrors `req`: its message and its payload.
pub open spec fn mirrors(req: EchoRequest, resp: EchoResponse) -> bool {
    &&& resp.message@ == req.message@
    &&& resp.payload@ == req.payload@
}

/// How many responses `ServerStreamEcho` sends: `repeat`, and at least one.
pub open spec fn stream_len(repeat: u32) -> nat {
    if repeat == 0 { 1 } else { repeat as nat }
}

/// The gRPC benchmark service: mirrors payloads and streams on demand.
#[derive(Debug, Default, Clone, Copy)]
pub struct EchoServiceImpl;

impl EchoServiceImpl {
    /// `Echo` (unary): mirrors `message` and `payload` back.
    pub fn echo(&self, req: EchoRequest) -> (resp: EchoResponse)
        ensures
            mirrors(req, resp),
            resp.message@ == req.message@,
            resp.payload@ == req.payload@,
    {
        EchoResponse { message: req.message, payload: req.payload }
    }

    /// `ServerStreamEcho`: `max(repeat, 1)` responses, each mirroring the
    /// request, in the order in which they are streamed.
    pub fn server_stream_echo(&self, req: EchoRequest) -> (resps: Vec<EchoResponse>)
        ensures
            resps@.len() == stream_len(req.repeat),
            resps@.len() == if req.repeat == 0 { 1 } else { req.repeat as nat },
            forall|i: int| 0 <= i < resps@.len() ==> #[trigger] mirrors(req, resps@[i]),
            forall|i: int| 0 <= i < resps@.len()
                ==> (#[trigger] resps@[i]).message@ == req.message@ && resps@[i].payload@ == req.payload@,
    {
        let repeat: u32 = if req.repeat == 0 { 1 } else { req.repeat };
        let mut resps: Vec<EchoResponse> = Vec::new();
        let mut k: u32 = 0;
        while k < repeat
            invariant
                repeat as nat == stream_len(req.repeat),
                k <= repeat,
                resps@.len() == k,
                forall|i: int| 0 <= i < resps@.len() ==> #[trigger] mirrors(req, resps@[i]),
            decreases repeat - k,
        {
            let payload = req.payload.clone();
            assert(payload@ =~= req.payload@);
            resps.push(EchoResponse { message: req.message.clone(), payload });
            k = k + 1;
        }
        assert forall|i: int| 0 <= i < resps@.len() implies (#[trigger] resps@[i]).message@ == req.message@
            && resps@[i].payload@ == req.payload@ by {
            assert(mirrors(req, resps@[i]));
        }
        resps
    }

    /// `BidiEcho`, for one item of the request stream: a request is answered
    /// by the response that mirrors it, and a stream error is passed on as
    /// it came.
    pub fn bidi_echo<E>(&self, item: Result<EchoRequest, E>) -> (out: Result<EchoResponse, E>)
        ensures
            item is Ok <==> out is Ok,
            item matches Ok(req) ==> (out matches Ok(resp) && mirrors(req, resp)),
            item matches Ok(req) ==> (out matches Ok(resp) && resp.message@ == req.message@
                && resp.payload@ == req.payload@),
            item matches Err(e) ==> out == Err::<EchoResponse, E>(e),
    {
        match item {
            Ok(req) => Ok(EchoResponse { message: req.message, payload: req.payload }),
            Err(e) => Err(e),
        }
    }
}

/// `ServerStreamEcho` sends exactly the requested number of responses,
/// with no cap, and one when none is requested: never fewer than one, and
/// a larger `repeat` never gives fewer responses.
pub proof fn lemma_stream_len(repeat: u32, other: u32)
    ensures
        stream_len(repeat) >= 1,
        repeat >= 1 ==> stream_len(repeat) == repeat,
        stream_len(0) == 1,
        1 <= repeat <= other ==> stream_len(repeat) <= stream_len(other),
{
}

/// The three calls answer a request alike: a response that mirrors a
/// request is determined by it, so `Echo`, every item of
/// `ServerStreamEcho` and `BidiEcho` give the same message and payload.
pub proof fn lemma_mirror_determined(req: EchoRequest, a: EchoResponse, b: EchoResponse)
    requires
        mirrors(req, a),
        mirrors(req, b),
    ensures
        a.message@ == b.message@,
        a.payload@ == b.payload@,
{
}

} // verus!
