//! Decoded message values that the call handlers consume and produce.

use vstd::prelude::*;

verus! {

/// A request message: one carried number.
#[derive(Clone, Copy, Debug, PartialEq, Eq, Structural)]
pub struct Ping {
    pub number: u32,
}

/// A response message: one carried number.
#[derive(Clone, Copy, Debug, PartialEq, Eq, Structural)]
pub struct Pong {
    pub number: u32,
}

/// The four request/response cardinality patterns of an RPC method.
#[derive(Clone, Copy, Debug, PartialEq, Eq, Structural)]
pub enum CallShape {
    /// One request, one response.
    Unary,
    /// Many requests, one response after the client's end-of-input.
    ClientStreaming,
    /// One request, many responses.
    ServerStreaming,
    /// Many requests, many responses, correlated one to one.
    DuplexStreaming,
}

/// What the inbound side of a call reported when it was asked for the next
/// message.
#[derive(Clone, Copy, Debug, PartialEq, Eq, Structural)]
pub enum Inbound {
    /// The next message, in arrival order.
    Message(Ping),
    /// The client signalled end-of-input.
    End,
    /// The read failed: the connection is gone or the call was cancelled.
    Failed,
    /// A message arrived that could not be taken as a request.
    Malformed,
}

/// The status code of a read that got an argument it could not accept.
pub const STATUS_INVALID_ARGUMENT: i32 = 3;

/// The status code of a read that got a message beyond the size limit.
pub const STATUS_OUT_OF_RANGE: i32 = 11;

/// The status code of a read that got a message it could not decode.
pub const STATUS_INTERNAL: i32 = 13;

/// The status code of a read that got a message with data missing.
pub const STATUS_DATA_LOSS: i32 = 15;

/// What a failed read means, by the status code it reported: a message that
/// could not be taken as a request where the code speaks of the message,
/// a failed connection for every other code.
pub open spec fn read_failure(status_code: i32) -> Inbound {
    if status_code == STATUS_INVALID_ARGUMENT || status_code == STATUS_OUT_OF_RANGE || status_code
        == STATUS_INTERNAL || status_code == STATUS_DATA_LOSS {
        Inbound::Malformed
    } else {
        Inbound::Failed
    }
}

/// The response that echoes a request's number.
pub open spec fn echo(ping: Ping) -> Pong {
    Pong { number: ping.number }
}

/// The responses that echo a sequence of requests, one for one and in order.
pub open spec fn echo_all(pings: Seq<Ping>) -> Seq<Pong> {
    Seq::new(pings.len(), |i: int| echo(pings[i]))
}

/// The numbers carried by a sequence of requests, in order.
pub open spec fn numbers(pings: Seq<Ping>) -> Seq<u32> {
    Seq::new(pings.len(), |i: int| pings[i].number)
}

impl Inbound {
    /// The event for a read that failed with `status_code`.
    pub fn of_read_failure(status_code: i32) -> (event: Inbound)
        ensures
            event == read_failure(status_code),
    {
        if status_code == STATUS_INVALID_ARGUMENT || status_code == STATUS_OUT_OF_RANGE
            || status_code == STATUS_INTERNAL || status_code == STATUS_DATA_LOSS {
            Inbound::Malformed
        } else {
            Inbound::Failed
        }
    }
}

impl Ping {
    /// The response that carries this request's number back unchanged.
    pub fn echo(&self) -> (pong: Pong)
        ensures
            pong == echo(*self),
    {
        Pong { number: self.number }
    }
}

} // verus!
