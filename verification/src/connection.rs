//! The life of one connection's byte stream: which reads, writes and
//! half-closes still go to the socket, and which are answered at once.

use vstd::prelude::*;
use crate::error::AgentError;

verus! {

/// What to do about an operation on a connection before the socket is
/// touched.
#[derive(Clone, Copy, Debug, PartialEq, Eq, Structural)]
pub enum IoPlan {
    /// Attempt the operation on the socket and report what it came to.
    Attempt,
    /// Nothing is left to do: the operation succeeds at once, and moves no
    /// bytes.
    Complete,
    /// The operation fails at once, with this failure.
    Fail(AgentError),
}

/// What an operation attempted on the socket came to.
#[derive(Clone, Copy, Debug, PartialEq, Eq, Structural)]
pub enum IoOutcome {
    /// It succeeded and moved this many bytes; none for a half-close.
    Ready(usize),
    /// It failed at the OS level.
    Failed,
    /// The socket is not ready: the caller is suspended and tries again.
    Pending,
}

/// An operation attempted on the socket, with what it came to.
#[derive(Clone, Copy, Debug, PartialEq, Eq, Structural)]
pub enum IoEvent {
    /// A read into a buffer with room for `room` bytes.
    Read { room: usize, outcome: IoOutcome },
    /// A write.
    Write(IoOutcome),
    /// A half-close of the write side.
    Shutdown(IoOutcome),
}

/// How far a connection's byte stream has come.
#[derive(Clone, Copy, Debug, PartialEq, Eq, Structural)]
pub struct ConnectionState {
    /// The peer has ended its side: a read found nothing where there was
    /// room.
    pub read_ended: bool,
    /// The write side was half-closed.
    pub write_closed: bool,
    /// A read, a write or a half-close failed.
    pub failed: bool,
}

impl ConnectionState {
    /// A connection as it is accepted: both sides open, nothing failed.
    pub open spec fn fresh() -> ConnectionState {
        ConnectionState { read_ended: false, write_closed: false, failed: false }
    }

    /// A read fails at once on a failed connection, reports the end of the
    /// stream at once where the stream has ended, and goes to the socket
    /// otherwise.
    pub open spec fn read_plan(self) -> IoPlan {
        if self.failed {
            IoPlan::Fail(AgentError::TransportIoFailure)
        } else if self.read_ended {
            IoPlan::Complete
        } else {
            IoPlan::Attempt
        }
    }

    /// A write fails at once on a failed connection and after the write
    /// side was half-closed, and goes to the socket otherwise.
    pub open spec fn write_plan(self) -> IoPlan {
        if self.failed || self.write_closed {
            IoPlan::Fail(AgentError::TransportIoFailure)
        } else {
            IoPlan::Attempt
        }
    }

    /// Nothing is buffered: a flush succeeds at once, always.
    pub open spec fn flush_plan(self) -> IoPlan {
        IoPlan::Complete
    }

    /// A half-close succeeds at once where the write side is closed
    /// already, fails at once on a failed connection, and goes to the
    /// socket otherwise.
    pub open spec fn shutdown_plan(self) -> IoPlan {
        if self.write_closed {
            IoPlan::Complete
        } else if self.failed {
            IoPlan::Fail(AgentError::TransportIoFailure)
        } else {
            IoPlan::Attempt
        }
    }

    /// The state after an operation that was attempted on the socket. A
    /// failure fails the connection. A read that finds nothing where there
    /// was room ends the read side; a half-close that succeeds closes the
    /// write side and leaves the read side alone. A suspended operation
    /// changes nothing.
    pub open spec fn after(self, event: IoEvent) -> ConnectionState {
        match event {
            IoEvent::Read { room, outcome } => match outcome {
                IoOutcome::Ready(bytes) => ConnectionState {
                    read_ended: self.read_ended || (bytes == 0 && room > 0),
                    ..self
                },
                IoOutcome::Failed => ConnectionState { failed: true, ..self },
                IoOutcome::Pending => self,
            },
            IoEvent::Write(outcome) => match outcome {
                IoOutcome::Failed => ConnectionState { failed: true, ..self },
                _ => self,
            },
            IoEvent::Shutdown(outcome) => match outcome {
                IoOutcome::Ready(_) => ConnectionState { write_closed: true, ..self },
                IoOutcome::Failed => ConnectionState { failed: true, ..self },
                IoOutcome::Pending => self,
            },
        }
    }

    /// The state after a run of operations.
    pub open spec fn after_all(self, events: Seq<IoEvent>) -> ConnectionState
        decreases events.len(),
    {
        if events.len() == 0 {
            self
        } else {
            self.after_all(events.drop_last()).after(events.last())
        }
    }

    /// A connection as it is accepted.
    pub fn new() -> (state: ConnectionState)
        ensures
            state == ConnectionState::fresh(),
    {
        ConnectionState { read_ended: false, write_closed: false, failed: false }
    }

    /// What to do about a read.
    pub fn plan_read(&self) -> (plan: IoPlan)
        ensures
            plan == self.read_plan(),
    {
        if self.failed {
            IoPlan::Fail(AgentError::TransportIoFailure)
        } else if self.read_ended {
            IoPlan::Complete
        } else {
            IoPlan::Attempt
        }
    }

    /// What to do about a write.
    pub fn plan_write(&self) -> (plan: IoPlan)
        ensures
            plan == self.write_plan(),
    {
        if self.failed || self.write_closed {
            IoPlan::Fail(AgentError::TransportIoFailure)
        } else {
            IoPlan::Attempt
        }
    }

    /// What to do about a flush.
    pub fn plan_flush(&self) -> (plan: IoPlan)
        ensures
            plan == self.flush_plan(),
    {
        IoPlan::Complete
    }

    /// What to do about a half-close of the write side.
    pub fn plan_shutdown(&self) -> (plan: IoPlan)
        ensures
            plan == self.shutdown_plan(),
    {
        if self.write_closed {
            IoPlan::Complete
        } else if self.failed {
            IoPlan::Fail(AgentError::TransportIoFailure)
        } else {
            IoPlan::Attempt
        }
    }

    /// Takes note of an operation that was attempted on the socket.
    pub fn record(&mut self, event: IoEvent)
        ensures
            *final(self) == old(self).after(event),
    {
        match event {
            IoEvent::Read { room, outcome } => match outcome {
                IoOutcome::Ready(bytes) => {
                    if bytes == 0 && room > 0 {
                        self.read_ended = true;
                    }
                },
                IoOutcome::Failed => {
                    self.failed = true;
                },
                IoOutcome::Pending => {},
            },
            IoEvent::Write(outcome) => match outcome {
                IoOutcome::Failed => {
                    self.failed = true;
                },
                _ => {},
            },
            IoEvent::Shutdown(outcome) => match outcome {
                IoOutcome::Ready(_) => {
                    self.write_closed = true;
                },
                IoOutcome::Failed => {
                    self.failed = true;
                },
                IoOutcome::Pending => {},
            },
        }
    }
}

/// What has happened to a connection stays so: an ended read side, a closed
/// write side and a failure are never undone, whatever is attempted later.
pub proof fn lemma_nothing_is_undone(state: ConnectionState, events: Seq<IoEvent>)
    ensures
        state.read_ended ==> state.after_all(events).read_ended,
        state.write_closed ==> state.after_all(events).write_closed,
        state.failed ==> state.after_all(events).failed,
    decreases events.len(),
{
    if events.len() > 0 {
        lemma_nothing_is_undone(state, events.drop_last());
    }
}

/// A half-close is idempotent: once one has succeeded, every later one
/// succeeds at once, without the socket, whatever happened in between.
pub proof fn lemma_shutdown_is_idempotent(state: ConnectionState, bytes: usize, later: Seq<IoEvent>)
    ensures
        state.after(IoEvent::Shutdown(IoOutcome::Ready(bytes))).after_all(later).shutdown_plan()
            == IoPlan::Complete,
{
    lemma_nothing_is_undone(state.after(IoEvent::Shutdown(IoOutcome::Ready(bytes))), later);
}

/// A half-close that does not fail leaves the read side as it was.
pub proof fn lemma_half_close_spares_reads(state: ConnectionState, outcome: IoOutcome)
    requires
        !(outcome is Failed),
    ensures
        state.after(IoEvent::Shutdown(outcome)).read_plan() == state.read_plan(),
{
}

/// A failure ends the connection's use: from then on every read and every
/// write fails at once as a transport failure, whatever is attempted later.
pub proof fn lemma_failure_is_final(state: ConnectionState, later: Seq<IoEvent>)
    requires
        state.failed,
    ensures
        state.after_all(later).read_plan() == IoPlan::Fail(AgentError::TransportIoFailure),
        state.after_all(later).write_plan() == IoPlan::Fail(AgentError::TransportIoFailure),
{
    lemma_nothing_is_undone(state, later);
}

/// The read side ends only when a read finds nothing where there was room:
/// no other operation ends it.
pub proof fn lemma_read_ends_only_at_stream_end(state: ConnectionState, event: IoEvent)
    requires
        !state.read_ended,
    ensures
        state.after(event).read_ended <==> (event matches IoEvent::Read {
            room,
            outcome: IoOutcome::Ready(bytes),
        } && bytes == 0 && room > 0),
{
}

} // verus!
