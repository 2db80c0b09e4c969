//! The failures the agent distinguishes, and how far each one propagates.

use vstd::prelude::*;

verus! {

/// A failure of the agent.
#[derive(Clone, Copy, Debug, PartialEq, Eq, Structural)]
pub enum AgentError {
    /// The listening socket could not be acquired.
    BindFailure,
    /// An accept attempt on the listening socket failed at the OS level.
    AcceptFailure,
    /// A read or write on an established connection failed.
    TransportIoFailure,
    /// A call's input was malformed or outside the accepted domain.
    ProtocolViolation,
    /// The call's shape is not wired to a handler.
    UnimplementedShape,
}

/// The status a failed call is reported with to its caller.
#[derive(Clone, Copy, Debug, PartialEq, Eq, Structural)]
pub enum CallStatus {
    /// The call's input was outside the accepted domain.
    OutOfRange,
    /// The call's shape has no handler.
    Unimplemented,
    /// The connection under the call failed.
    Unavailable,
    /// The agent itself failed.
    Internal,
}

/// The boundary at which a failure stops.
#[derive(Clone, Copy, Debug, PartialEq, Eq, Structural)]
pub enum ErrorScope {
    /// The whole process ends.
    Process,
    /// The sequence of accepted connections ends; no further accept is made.
    Listener,
    /// The affected connection and its sessions end; siblings go on.
    Connection,
    /// The affected call fails; its connection and other calls go on.
    Call,
}

impl AgentError {
    /// Resource acquisition stops the process, a failed accept ends the
    /// listener, transport failures stop at the connection and protocol or
    /// application failures stop at the call.
    pub open spec fn spec_scope(self) -> ErrorScope {
        match self {
            AgentError::BindFailure => ErrorScope::Process,
            AgentError::AcceptFailure => ErrorScope::Listener,
            AgentError::TransportIoFailure => ErrorScope::Connection,
            AgentError::ProtocolViolation => ErrorScope::Call,
            AgentError::UnimplementedShape => ErrorScope::Call,
        }
    }

    /// A failure is fatal when the serving loop cannot go on after it: the
    /// socket was never bound, or the listener ended.
    pub open spec fn spec_is_fatal(self) -> bool {
        self.spec_scope() == ErrorScope::Process || self.spec_scope() == ErrorScope::Listener
    }

    /// The status a call ends with when this failure reaches it: a protocol
    /// violation is out of range, a shape without handler is explicitly not
    /// implemented, a failed transport is unavailable, and what went wrong
    /// in the agent itself is internal.
    pub open spec fn spec_call_status(self) -> CallStatus {
        match self {
            AgentError::ProtocolViolation => CallStatus::OutOfRange,
            AgentError::UnimplementedShape => CallStatus::Unimplemented,
            AgentError::TransportIoFailure => CallStatus::Unavailable,
            AgentError::BindFailure => CallStatus::Internal,
            AgentError::AcceptFailure => CallStatus::Internal,
        }
    }

    /// The status a call ends with when this failure reaches it.
    pub fn call_status(&self) -> (status: CallStatus)
        ensures
            status == self.spec_call_status(),
    {
        match self {
            AgentError::ProtocolViolation => CallStatus::OutOfRange,
            AgentError::UnimplementedShape => CallStatus::Unimplemented,
            AgentError::TransportIoFailure => CallStatus::Unavailable,
            AgentError::BindFailure => CallStatus::Internal,
            AgentError::AcceptFailure => CallStatus::Internal,
        }
    }

    /// The diagnostic that goes with this failure, as contracts see it.
    pub open spec fn spec_message(self) -> Seq<char> {
        match self {
            AgentError::BindFailure => "could not bind the vsock listener"@,
            AgentError::AcceptFailure => "could not accept a vsock connection"@,
            AgentError::TransportIoFailure => "the connection failed while reading or writing"@,
            AgentError::ProtocolViolation => "the call's input is outside the accepted domain"@,
            AgentError::UnimplementedShape => "the call's shape is not implemented"@,
        }
    }

    /// The diagnostic that goes with this failure: the status text of a
    /// failed call, or the message the process ends with.
    pub fn message(&self) -> (text: &'static str)
        ensures
            text@ == self.spec_message(),
    {
        match self {
            AgentError::BindFailure => "could not bind the vsock listener",
            AgentError::AcceptFailure => "could not accept a vsock connection",
            AgentError::TransportIoFailure => "the connection failed while reading or writing",
            AgentError::ProtocolViolation => "the call's input is outside the accepted domain",
            AgentError::UnimplementedShape => "the call's shape is not implemented",
        }
    }

    /// The boundary at which this failure stops.
    pub fn scope(&self) -> (scope: ErrorScope)
        ensures
            scope == self.spec_scope(),
    {
        match self {
            AgentError::BindFailure => ErrorScope::Process,
            AgentError::AcceptFailure => ErrorScope::Listener,
            AgentError::TransportIoFailure => ErrorScope::Connection,
            AgentError::ProtocolViolation => ErrorScope::Call,
            AgentError::UnimplementedShape => ErrorScope::Call,
        }
    }

    /// Whether this failure ends the serving loop, and with it the process.
    pub fn is_fatal(&self) -> (fatal: bool)
        ensures
            fatal == self.spec_is_fatal(),
    {
        match self {
            AgentError::BindFailure => true,
            AgentError::AcceptFailure => true,
            _ => false,
        }
    }

    /// The exit status the process ends with on this failure: non-zero for a
    /// fatal one, none for a failure that the serving loop survives.
    pub fn exit_status(&self) -> (status: Option<u8>)
        ensures
            status == (if self.spec_is_fatal() {
                Some(1u8)
            } else {
                None
            }),
    {
        if self.is_fatal() {
            Some(1)
        } else {
            None
        }
    }
}

} // verus!
