//! Which call shapes are wired to a handler.

use vstd::prelude::*;
use crate::error::AgentError;
use crate::message::CallShape;

verus! {

/// The set of call shapes that have a handler.
#[derive(Clone, Copy, Debug, PartialEq, Eq, Structural)]
pub struct HandlerTable {
    unary: bool,
    client_streaming: bool,
    server_streaming: bool,
    duplex_streaming: bool,
}

impl HandlerTable {
    /// Whether `shape` has a handler, as contracts see it.
    pub closed spec fn wired(self, shape: CallShape) -> bool {
        match shape {
            CallShape::Unary => self.unary,
            CallShape::ClientStreaming => self.client_streaming,
            CallShape::ServerStreaming => self.server_streaming,
            CallShape::DuplexStreaming => self.duplex_streaming,
        }
    }

    /// A table with no handler.
    pub fn new() -> (table: HandlerTable)
        ensures
            forall|shape: CallShape| !table.wired(shape),
    {
        HandlerTable {
            unary: false,
            client_streaming: false,
            server_streaming: false,
            duplex_streaming: false,
        }
    }

    /// The table of the agent's service: every shape has its handler.
    pub fn complete() -> (table: HandlerTable)
        ensures
            forall|shape: CallShape| table.wired(shape),
    {
        HandlerTable {
            unary: true,
            client_streaming: true,
            server_streaming: true,
            duplex_streaming: true,
        }
    }

    /// Wires `shape` to its handler; the other shapes stay as they were.
    pub fn register(&mut self, shape: CallShape)
        ensures
            forall|other: CallShape|
                final(self).wired(other) == (other == shape || old(self).wired(other)),
    {
        match shape {
            CallShape::Unary => {
                self.unary = true;
            },
            CallShape::ClientStreaming => {
                self.client_streaming = true;
            },
            CallShape::ServerStreaming => {
                self.server_streaming = true;
            },
            CallShape::DuplexStreaming => {
                self.duplex_streaming = true;
            },
        }
    }

    /// Whether `shape` has a handler.
    pub fn is_wired(&self, shape: CallShape) -> (wired: bool)
        ensures
            wired == self.wired(shape),
    {
        match shape {
            CallShape::Unary => self.unary,
            CallShape::ClientStreaming => self.client_streaming,
            CallShape::ServerStreaming => self.server_streaming,
            CallShape::DuplexStreaming => self.duplex_streaming,
        }
    }

    /// Routes a call of `shape`: to its handler where it has one, to an
    /// explicit "not implemented" failure where it has none.
    pub fn resolve(&self, shape: CallShape) -> (route: Result<CallShape, AgentError>)
        ensures
            route == (if self.wired(shape) {
                Ok::<CallShape, AgentError>(shape)
            } else {
                Err(AgentError::UnimplementedShape)
            }),
    {
        if self.is_wired(shape) {
            Ok(shape)
        } else {
            Err(AgentError::UnimplementedShape)
        }
    }
}

} // verus!
