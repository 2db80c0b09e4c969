//! The transport adapter: VSOCK addresses, the metadata of an accepted
//! connection, and the bridge from a listening socket's accept attempts to
//! a sequence of connections.

use vstd::prelude::*;
use crate::connection::{ConnectionState, IoEvent, IoPlan};
use crate::error::AgentError;

verus! {

/// The context identifier that stands for any caller.
pub const VMADDR_CID_ANY: u32 = 0xFFFF_FFFF;

/// The service identifier on which the RPC agent listens.
pub const GRPC_VSOCK_PORT: u32 = 9000;

/// The service identifier on which the HTTP agent listens.
pub const HTTP_VSOCK_PORT: u32 = 8000;

/// A VSOCK endpoint: a context identifier and a service identifier.
#[derive(Clone, Copy, Debug, PartialEq, Eq, Structural)]
pub struct VsockAddr {
    cid: u32,
    port: u32,
}

impl VsockAddr {
    /// The context identifier, as contracts see it.
    pub closed spec fn spec_cid(self) -> u32 {
        self.cid
    }

    /// The service identifier, as contracts see it.
    pub closed spec fn spec_port(self) -> u32 {
        self.port
    }

    /// Two endpoints with the same identifiers are the same endpoint.
    pub proof fn lemma_same_identifiers(self, other: VsockAddr)
        requires
            self.spec_cid() == other.spec_cid(),
            self.spec_port() == other.spec_port(),
        ensures
            self == other,
    {
    }

    /// The endpoint with these identifiers.
    pub fn new(cid: u32, port: u32) -> (addr: VsockAddr)
        ensures
            addr.spec_cid() == cid,
            addr.spec_port() == port,
    {
        VsockAddr { cid, port }
    }

    /// The endpoint a listener binds to serve `port` to any caller.
    pub fn any(port: u32) -> (addr: VsockAddr)
        ensures
            addr.spec_cid() == VMADDR_CID_ANY,
            addr.spec_port() == port,
    {
        VsockAddr { cid: VMADDR_CID_ANY, port }
    }

    /// The context identifier.
    pub fn cid(&self) -> (cid: u32)
        ensures
            cid == self.spec_cid(),
    {
        self.cid
    }

    /// The service identifier.
    pub fn port(&self) -> (port: u32)
        ensures
            port == self.spec_port(),
    {
        self.port
    }

    /// Whether the endpoint accepts any caller.
    pub fn is_wildcard(&self) -> (wildcard: bool)
        ensures
            wildcard == (self.spec_cid() == VMADDR_CID_ANY),
    {
        self.cid == VMADDR_CID_ANY
    }
}

/// The peer of a connection, as far as it could be resolved when the
/// connection was accepted.
#[derive(Clone, Copy, Debug, PartialEq, Eq, Structural)]
pub struct VsockConnectInfo {
    pub peer_addr: Option<VsockAddr>,
}

/// One accepted connection: the socket, the peer captured when it was
/// accepted, and how far the byte stream has come. It is not `Clone`: one
/// handle stands for one socket.
#[derive(Debug)]
pub struct VsockStreamConnectable<S> {
    peer_addr: Option<VsockAddr>,
    inner: S,
    state: ConnectionState,
}

impl<S> VsockStreamConnectable<S> {
    /// The peer captured at accept time, as contracts see it.
    pub closed spec fn spec_peer_addr(&self) -> Option<VsockAddr> {
        self.peer_addr
    }

    /// The socket under the handle, as contracts see it.
    pub closed spec fn spec_inner(&self) -> S {
        self.inner
    }

    /// How far the byte stream has come, as contracts see it.
    pub closed spec fn spec_state(&self) -> ConnectionState {
        self.state
    }

    /// The handle of the connection accepted on `inner` from `peer_addr`;
    /// `None` where the peer could not be resolved.
    pub fn new(inner: S, peer_addr: Option<VsockAddr>) -> (connection: VsockStreamConnectable<S>)
        ensures
            connection == connection_on(inner, peer_addr),
    {
        VsockStreamConnectable { peer_addr, inner, state: ConnectionState::new() }
    }

    /// The snapshot taken at accept time.
    pub fn connect_info(&self) -> (info: VsockConnectInfo)
        ensures
            info.peer_addr == self.spec_peer_addr(),
    {
        VsockConnectInfo { peer_addr: self.peer_addr }
    }

    /// How far the byte stream has come.
    pub fn state(&self) -> (state: ConnectionState)
        ensures
            state == self.spec_state(),
    {
        self.state
    }

    /// The socket, to read what it holds.
    pub fn get_ref(&self) -> (inner: &S)
        ensures
            *inner == self.spec_inner(),
    {
        &self.inner
    }

    /// The socket, to attempt an operation on it. The snapshot of the peer
    /// and the state of the byte stream stay as they are.
    pub fn get_mut(&mut self) -> (inner: &mut S)
        ensures
            *inner == old(self).spec_inner(),
            final(self).spec_inner() == *final(inner),
            final(self).spec_peer_addr() == old(self).spec_peer_addr(),
            final(self).spec_state() == old(self).spec_state(),
    {
        &mut self.inner
    }

    /// What to do about a read.
    pub fn poll_read(&self) -> (plan: IoPlan)
        ensures
            plan == self.spec_state().read_plan(),
    {
        self.state.plan_read()
    }

    /// What to do about a write.
    pub fn poll_write(&self) -> (plan: IoPlan)
        ensures
            plan == self.spec_state().write_plan(),
    {
        self.state.plan_write()
    }

    /// What to do about a flush.
    pub fn poll_flush(&self) -> (plan: IoPlan)
        ensures
            plan == self.spec_state().flush_plan(),
    {
        self.state.plan_flush()
    }

    /// What to do about a half-close of the write side.
    pub fn poll_shutdown(&self) -> (plan: IoPlan)
        ensures
            plan == self.spec_state().shutdown_plan(),
    {
        self.state.plan_shutdown()
    }

    /// Takes note of an operation that was attempted on the socket. The
    /// socket and the snapshot of the peer stay as they are.
    pub fn record(&mut self, event: IoEvent)
        ensures
            final(self).spec_state() == old(self).spec_state().after(event),
            final(self).spec_inner() == old(self).spec_inner(),
            final(self).spec_peer_addr() == old(self).spec_peer_addr(),
    {
        self.state.record(event);
    }

    /// Gives the socket back and with it the snapshot of its peer.
    pub fn into_parts(self) -> (parts: (S, VsockConnectInfo))
        ensures
            parts.0 == self.spec_inner(),
            parts.1.peer_addr == self.spec_peer_addr(),
    {
        (self.inner, VsockConnectInfo { peer_addr: self.peer_addr })
    }
}

/// What one accept attempt on the listening socket came to.
#[derive(Debug)]
pub enum AcceptOutcome<S, E> {
    /// A connection was accepted on `stream`; its peer was resolved or not.
    Accepted { stream: S, peer_addr: Option<VsockAddr> },
    /// The attempt failed at the OS level, for this cause.
    Failed(E),
    /// No connection is pending; the caller is woken when one is.
    Pending,
}

/// What the connection sequence hands to its consumer on one poll.
#[derive(Debug)]
pub enum Incoming<S, E> {
    /// The next accepted connection.
    Connection(VsockStreamConnectable<S>),
    /// The listener failed: this is the last item of the sequence.
    Failure(AgentError, E),
    /// Nothing yet: the consumer is suspended.
    Pending,
    /// The sequence has ended.
    Ended,
}

/// What one poll of a connection sequence hands to the consumer. An ended
/// sequence stays ended whatever the socket reports. A live one passes an
/// accepted connection on, on the socket it was accepted on and with the
/// peer that was captured; it surfaces a failed accept, with its cause, as
/// its last item; and it suspends while nothing is pending.
pub open spec fn incoming_for<S, E>(terminated: bool, outcome: AcceptOutcome<S, E>) -> Incoming<
    S,
    E,
> {
    if terminated {
        Incoming::Ended
    } else {
        match outcome {
            AcceptOutcome::Accepted { stream, peer_addr } => Incoming::Connection(
                connection_on(stream, peer_addr),
            ),
            AcceptOutcome::Failed(cause) => Incoming::Failure(AgentError::AcceptFailure, cause),
            AcceptOutcome::Pending => Incoming::Pending,
        }
    }
}

/// Whether a sequence has ended after a run of accept attempts.
pub open spec fn terminated_after<S, E>(
    terminated: bool,
    outcomes: Seq<AcceptOutcome<S, E>>,
) -> bool
    decreases outcomes.len(),
{
    if outcomes.len() == 0 {
        terminated
    } else {
        terminated_after(terminated, outcomes.drop_last()) || outcomes.last() is Failed
    }
}

/// A sequence never ends by itself: after any run of accept attempts a new
/// sequence has ended exactly when one of the attempts failed, and until
/// then every poll is answered with a connection or a suspension.
pub proof fn lemma_sequence_ends_only_by_failure<S, E>(outcomes: Seq<AcceptOutcome<S, E>>)
    ensures
        terminated_after(false, outcomes) <==> exists|i: int|
            0 <= i < outcomes.len() && #[trigger] outcomes[i] is Failed,
        forall|outcome: AcceptOutcome<S, E>|
            #[trigger] incoming_for(terminated_after(false, outcomes), outcome) is Ended
                <==> terminated_after(false, outcomes),
    decreases outcomes.len(),
{
    if outcomes.len() > 0 {
        let earlier = outcomes.drop_last();
        lemma_sequence_ends_only_by_failure(earlier);
        if terminated_after(false, earlier) {
            let i = choose|i: int| 0 <= i < earlier.len() && #[trigger] earlier[i] is Failed;
            assert(outcomes[i] is Failed);
        } else if outcomes.last() is Failed {
            assert(outcomes[outcomes.len() - 1] is Failed);
        } else {
            assert forall|i: int| 0 <= i < outcomes.len() implies !(#[trigger] outcomes[i]
                is Failed) by {
                if i < earlier.len() {
                    assert(earlier[i] == outcomes[i]);
                }
            }
        }
    }
}

/// The handle of the connection accepted on `stream` from `peer_addr`, as it
/// is when nothing has been read or written yet.
pub closed spec fn connection_on<S>(stream: S, peer_addr: Option<VsockAddr>)
    -> VsockStreamConnectable<S> {
    VsockStreamConnectable { peer_addr, inner: stream, state: ConnectionState::fresh() }
}

/// A new handle is the one of its socket and its peer, and of no others.
pub proof fn lemma_connection_on<S>(stream: S, peer_addr: Option<VsockAddr>)
    ensures
        connection_on(stream, peer_addr).spec_inner() == stream,
        connection_on(stream, peer_addr).spec_peer_addr() == peer_addr,
        connection_on(stream, peer_addr).spec_state() == ConnectionState::fresh(),
        forall|connection: VsockStreamConnectable<S>|
            connection.spec_inner() == stream && connection.spec_peer_addr() == peer_addr
                && connection.spec_state() == ConnectionState::fresh() ==> connection
                == connection_on(stream, peer_addr),
{
}

/// The sequence of connections accepted on one listening socket. It ends
/// only after a failed accept, and then for good.
pub struct VsockListenerStream<L> {
    inner: L,
    terminated: bool,
}

impl<L> VsockListenerStream<L> {
    /// Whether a failed accept has ended the sequence, as contracts see it.
    pub closed spec fn spec_is_terminated(&self) -> bool {
        self.terminated
    }

    /// The listening socket, as contracts see it.
    pub closed spec fn spec_listener(&self) -> L {
        self.inner
    }

    /// The sequence over a bound listener.
    pub fn new(vsock_listener: L) -> (stream: VsockListenerStream<L>)
        ensures
            !stream.spec_is_terminated(),
            stream.spec_listener() == vsock_listener,
    {
        VsockListenerStream { inner: vsock_listener, terminated: false }
    }

    /// The sequence over a listener as binding left it: a live sequence
    /// over the bound socket, a bind failure where there is none.
    pub fn try_new(bound: Option<L>) -> (stream: Result<VsockListenerStream<L>, AgentError>)
        ensures
            bound matches Some(listener) ==> stream is Ok && !stream->Ok_0.spec_is_terminated()
                && stream->Ok_0.spec_listener() == listener,
            bound is None ==> stream == Err::<VsockListenerStream<L>, AgentError>(
                AgentError::BindFailure,
            ),
    {
        match bound {
            Some(listener) => Ok(VsockListenerStream::new(listener)),
            None => Err(AgentError::BindFailure),
        }
    }

    /// The listening socket, to attempt an accept on it.
    pub fn listener(&self) -> (listener: &L)
        ensures
            *listener == self.spec_listener(),
    {
        &self.inner
    }

    /// Whether the sequence has ended. No accept is attempted on an ended
    /// sequence.
    pub fn is_terminated(&self) -> (terminated: bool)
        ensures
            terminated == self.spec_is_terminated(),
    {
        self.terminated
    }

    /// Turns the outcome of one accept attempt into the next item of the
    /// sequence.
    pub fn poll_next<S, E>(&mut self, outcome: AcceptOutcome<S, E>) -> (incoming: Incoming<S, E>)
        ensures
            incoming == incoming_for(old(self).spec_is_terminated(), outcome),
            final(self).spec_is_terminated() == (old(self).spec_is_terminated()
                || outcome is Failed),
            final(self).spec_listener() == old(self).spec_listener(),
    {
        if self.terminated {
            return Incoming::Ended;
        }
        match outcome {
            AcceptOutcome::Accepted { stream, peer_addr } => Incoming::Connection(
                VsockStreamConnectable::new(stream, peer_addr),
            ),
            AcceptOutcome::Failed(cause) => {
                self.terminated = true;
                Incoming::Failure(AgentError::AcceptFailure, cause)
            },
            AcceptOutcome::Pending => Incoming::Pending,
        }
    }
}

} // verus!
