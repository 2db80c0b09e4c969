//! The four call handlers, each as a function from a call's whole input to
//! its whole output. The streaming ones drive the session of their shape to
//! its end, as a caller would that has every inbound message at hand.

use vstd::pervasive::unreached;
use vstd::prelude::*;
use crate::client_stream::{client_reply, ClientStep, ClientStream};
use crate::duplex::{lemma_queue_is_flushed, DrainStep, DuplexPhase, DuplexStream, EmitStep};
use crate::error::AgentError;
use crate::message::{echo_all, numbers, Inbound, Ping, Pong};
use crate::product::lemma_nonzero_product_prefix;
use crate::server_stream::ServerStream;

verus! {

/// The agent's service: one handler per call shape.
pub struct App;

/// The response to a unary call: the square of the request's number where
/// it fits the response's number, a protocol violation where it does not.
pub open spec fn unary_reply(request: Ping) -> Result<Pong, AgentError> {
    if request.number * request.number <= u32::MAX {
        Ok(Pong { number: (request.number * request.number) as u32 })
    } else {
        Err(AgentError::ProtocolViolation)
    }
}

/// The responses to a server-streaming call: as many as the request's
/// number says, each carrying that number.
pub open spec fn server_replies(request: Ping) -> Seq<Pong> {
    Seq::new(request.number as nat, |i: int| Pong { number: request.number })
}

impl App {
    /// Answers one request with one response.
    pub fn unary(&self, request: Ping) -> (reply: Result<Pong, AgentError>)
        ensures
            reply == unary_reply(request),
    {
        match request.number.checked_mul(request.number) {
            Some(number) => Ok(Pong { number }),
            None => Err(AgentError::ProtocolViolation),
        }
    }

    /// Drains the whole input, then answers with the product of its numbers
    /// that are not zero.
    pub fn client_streaming(&self, inbound: &[Ping]) -> (reply: Result<Pong, AgentError>)
        ensures
            reply == client_reply(numbers(inbound@)),
    {
        let mut session = ClientStream::new();
        let mut i: usize = 0;
        while i < inbound.len()
            invariant
                i <= inbound.len(),
                session.wf(),
                !session@.finished,
                session@.seen == numbers(inbound@).take(i as int),
            decreases inbound.len() - i,
        {
            proof {
                assert(numbers(inbound@).take(i as int).push(inbound@[i as int].number)
                    =~= numbers(inbound@).take(i + 1));
                lemma_nonzero_product_prefix(numbers(inbound@), i + 1);
            }
            match session.on_inbound(Inbound::Message(inbound[i])) {
                ClientStep::Continue => {},
                ClientStep::Fail(error) => {
                    return Err(error);
                },
                ClientStep::Reply(_) | ClientStep::Closed => unreached(),
            }
            i = i + 1;
        }
        proof {
            assert(numbers(inbound@).take(i as int) =~= numbers(inbound@));
            session.lemma_wf_view();
        }
        match session.on_inbound(Inbound::End) {
            ClientStep::Reply(pong) => Ok(pong),
            _ => unreached(),
        }
    }

    /// Answers one request with its number of responses, each carrying that
    /// number.
    pub fn server_streaming(&self, request: Ping) -> (outbound: Vec<Pong>)
        ensures
            outbound@ == server_replies(request),
    {
        let mut session = ServerStream::new(request);
        session.drain()
    }

    /// Answers every inbound message with its echo, in arrival order.
    pub fn duplex_streaming(&self, inbound: &[Ping]) -> (outbound: Vec<Pong>)
        ensures
            outbound@ == echo_all(inbound@),
    {
        let mut session = DuplexStream::new();
        let mut outbound: Vec<Pong> = Vec::new();
        let mut i: usize = 0;
        while i < inbound.len()
            invariant
                i <= inbound.len(),
                session.wf(),
                session@.phase == DuplexPhase::Open,
                session@.accepted == inbound@.take(i as int),
                session@.emitted == outbound@,
            decreases inbound.len() - i, session@.pending.len(),
        {
            match session.on_inbound(Inbound::Message(inbound[i])) {
                DrainStep::Continue => {
                    proof {
                        assert(inbound@.take(i as int).push(inbound@[i as int]) =~= inbound@.take(
                            i + 1,
                        ));
                    }
                    i = i + 1;
                },
                DrainStep::Backpressure => {
                    match session.poll_outbound(true) {
                        EmitStep::Emit(pong) => {
                            outbound.push(pong);
                        },
                        _ => unreached(),
                    }
                },
                DrainStep::Stop | DrainStep::Closed => unreached(),
            }
        }
        proof {
            assert(inbound@.take(i as int) =~= inbound@);
        }
        session.on_inbound(Inbound::End);
        proof {
            lemma_queue_is_flushed(session@);
        }
        let mut rest = session.drain();
        outbound.append(&mut rest);
        outbound
    }
}

} // verus!
