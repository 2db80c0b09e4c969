//! The request/response pair of the HTTP agent and its one route.

use vstd::prelude::*;
use crate::error::AgentError;

verus! {

/// The body of a ping request: two numbers.
#[derive(Clone, Copy, Debug, PartialEq, Eq, Structural)]
pub struct PingRequest {
    pub a: u32,
    pub b: u32,
}

/// The body of a ping response: one number.
#[derive(Clone, Copy, Debug, PartialEq, Eq, Structural)]
pub struct PingResponse {
    pub c: u32,
}

/// The response to a ping: the product of the request's two numbers where
/// it fits the response's number, a protocol violation where it does not.
pub open spec fn ping_reply(request: PingRequest) -> Result<PingResponse, AgentError> {
    if request.a * request.b <= u32::MAX {
        Ok(PingResponse { c: (request.a * request.b) as u32 })
    } else {
        Err(AgentError::ProtocolViolation)
    }
}

/// Answers a ping.
pub fn ping_route(request: PingRequest) -> (reply: Result<PingResponse, AgentError>)
    ensures
        reply == ping_reply(request),
{
    match request.a.checked_mul(request.b) {
        Some(c) => Ok(PingResponse { c }),
        None => Err(AgentError::ProtocolViolation),
    }
}

} // verus!
