//! Server-side connection handling.
//!
//! Each accepted secure connection gets one handler of its own; handler
//! state is connection-scoped and nothing is shared between connections.
//! The handler negotiates enlarged flow-control windows before any request
//! is processed, and answers every request on the connection with the same
//! fixed synthetic payload; chunking and credit accounting are left to the
//! protocol engine.

use vstd::prelude::*;

verus! {

/// The largest flow-control window the protocol can represent is one less
/// than two to the thirty-first; the handler advertises one byte below it.
pub const ENLARGED_WINDOW_SIZE: u32 = 0x7FFF_FFFE;

/// Size of the synthetic response payload: four mebibytes.
pub const DEFAULT_BODY_BYTES: usize = 4 * 1024 * 1024;

/// The byte the synthetic payload repeats (the letter `A`).
pub const BODY_FILL_BYTE: u8 = 65;

/// Success status for every response.
pub const RESPONSE_STATUS_OK: u16 = 200;

/// Protocol parameters a handler configures before serving any request.
#[derive(Clone, Copy, PartialEq, Eq, Structural, Debug)]
pub struct ServerSettings {
    /// Serve only the multiplexed protocol, no downgrade.
    pub multiplexed_only: bool,
    /// Initial per-stream flow-control window, in bytes.
    pub initial_stream_window: u32,
    /// Initial connection-level flow-control window, in bytes.
    pub initial_connection_window: u32,
}

/// The settings every connection is served with: enlarged windows, near
/// the protocol maximum, so flow control never stalls these payloads.
pub fn server_settings() -> (s: ServerSettings)
    ensures
        s.multiplexed_only,
        s.initial_stream_window == ENLARGED_WINDOW_SIZE,
        s.initial_connection_window == ENLARGED_WINDOW_SIZE,
{
    ServerSettings {
        multiplexed_only: true,
        initial_stream_window: ENLARGED_WINDOW_SIZE,
        initial_connection_window: ENLARGED_WINDOW_SIZE,
    }
}

/// What the handler answers a request with: a fixed success status, a
/// binary content type, and a synthetic body of a fixed length.
#[derive(Clone, Copy, PartialEq, Eq, Structural, Debug)]
pub struct ResponsePlan {
    /// Status code of the response.
    pub status: u16,
    /// Length of the synthetic body, in bytes.
    pub body_len: usize,
}

/// The declared content type of every response body.
pub fn response_content_type() -> (s: &'static str)
    ensures
        s@ == "application/octet-stream"@,
{
    "application/octet-stream"
}

/// Serves every request on one accepted connection. Owned by exactly one
/// connection: its state never outlives or leaks across connections.
#[derive(Clone, Copy, PartialEq, Eq, Structural, Debug)]
pub struct ConnectionHandler {
    /// The parameters the connection was configured with.
    pub settings: ServerSettings,
    /// Length of the synthetic body served on each request.
    pub body_len: usize,
    /// Requests answered on this connection so far.
    pub requests_served: u64,
}

impl ConnectionHandler {
    /// The one response this handler gives, whatever the request says.
    pub open spec fn spec_response(self) -> ResponsePlan {
        ResponsePlan { status: RESPONSE_STATUS_OK, body_len: self.body_len }
    }

    /// A handler for a freshly accepted connection, configured with the
    /// enlarged windows before any request is processed.
    pub fn new(body_len: usize) -> (h: Self)
        ensures
            h.settings.multiplexed_only,
            h.settings.initial_stream_window == ENLARGED_WINDOW_SIZE,
            h.settings.initial_connection_window == ENLARGED_WINDOW_SIZE,
            h.body_len == body_len,
            h.requests_served == 0,
    {
        ConnectionHandler {
            settings: server_settings(),
            body_len,
            requests_served: 0,
        }
    }

    /// Answer one incoming request: always the same fixed-size success
    /// response, independent of the request and of how many came before.
    pub fn on_request(&mut self) -> (r: ResponsePlan)
        requires
            old(self).requests_served < u64::MAX,
        ensures
            r == old(self).spec_response(),
            r.status == RESPONSE_STATUS_OK,
            r.body_len == old(self).body_len,
            final(self).requests_served == old(self).requests_served + 1,
            final(self).settings == old(self).settings,
            final(self).body_len == old(self).body_len,
    {
        self.requests_served = self.requests_served + 1;
        ResponsePlan { status: RESPONSE_STATUS_OK, body_len: self.body_len }
    }
}

/// The synthetic payload: `len` copies of the fill byte.
pub fn synthetic_body(len: usize) -> (body: Vec<u8>)
    ensures
        body@.len() == len,
        forall|j: int| 0 <= j < len ==> body@[j] == BODY_FILL_BYTE,
{
    let mut body: Vec<u8> = Vec::new();
    let mut i: usize = 0;
    while i < len
        invariant
            0 <= i <= len,
            body@.len() == i,
            forall|j: int| 0 <= j < i ==> body@[j] == BODY_FILL_BYTE,
        decreases len - i,
    {
        body.push(BODY_FILL_BYTE);
        i = i + 1;
    }
    body
}

} // verus!
