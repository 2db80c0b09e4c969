//! The duplex-streaming call: every inbound message is answered by one
//! outbound message, in arrival order. The side that drains the input and
//! the side that emits the output meet in a bounded queue; a full queue
//! holds the draining side back until the emitting side has made room.

use std::collections::VecDeque;
use vstd::pervasive::unreached;
use vstd::prelude::*;
use crate::error::AgentError;
use crate::message::{echo, echo_all, Inbound, Ping, Pong};

verus! {

/// How many responses a session holds at most between its two sides, unless
/// it was made with another bound.
pub const DEFAULT_CHANNEL_CAPACITY: usize = 64;

/// How far a duplex session has come.
#[derive(Clone, Copy, Debug, PartialEq, Eq, Structural)]
pub enum DuplexPhase {
    /// The input is still being read.
    Open,
    /// The client signalled end-of-input; what is queued is still owed.
    Ended,
    /// The input failed; what is queued is still owed, and after it this
    /// failure.
    Failed(AgentError),
    /// The sink was closed; nothing more is read or sent.
    Aborted,
}

/// What the draining side is told after it has offered one inbound event.
#[derive(Clone, Copy, Debug, PartialEq, Eq, Structural)]
pub enum DrainStep {
    /// The message was queued: read the next one.
    Continue,
    /// The queue is full and the message was not taken: offer it again once
    /// a response has been emitted.
    Backpressure,
    /// The input is over, by end-of-input, by a failed read or by a message
    /// that could not be taken as a request: stop reading.
    Stop,
    /// The session no longer reads; the event was ignored.
    Closed,
}

/// What the emitting side is told when it polls.
#[derive(Clone, Copy, Debug, PartialEq, Eq, Structural)]
pub enum EmitStep {
    /// Send this response.
    Emit(Pong),
    /// Nothing is queued yet: poll again after the draining side has made
    /// progress.
    Wait,
    /// The input has ended and everything queued was sent: end the output.
    End,
    /// The input has failed and everything queued was sent: end the output
    /// with this failure.
    Fail(AgentError),
    /// The sink is closed: nothing more is sent.
    Aborted,
}

/// One turn of a duplex session: of the side that drains the input, or of
/// the side that emits the output.
pub enum Turn {
    /// The draining side offers an inbound event.
    Drain(Inbound),
    /// The emitting side polls; `sink_open` is what it reports of its sink.
    Emit { sink_open: bool },
}

/// The model of a duplex session: what it may hold, what it holds, and what
/// has gone in and out since it began.
pub struct DuplexStreamView {
    /// The bound on the number of queued responses.
    pub capacity: nat,
    /// The responses queued between the two sides, oldest first.
    pub pending: Seq<Pong>,
    pub phase: DuplexPhase,
    /// The inbound messages taken in, in arrival order.
    pub accepted: Seq<Ping>,
    /// The responses handed to the emitting side, in order.
    pub emitted: Seq<Pong>,
}

impl DuplexStreamView {
    /// A session that has read and sent nothing.
    pub open spec fn initial(capacity: nat) -> DuplexStreamView {
        DuplexStreamView {
            capacity,
            pending: Seq::empty(),
            phase: DuplexPhase::Open,
            accepted: Seq::empty(),
            emitted: Seq::empty(),
        }
    }

    /// What holds of every session: the queue respects its bound, and the
    /// responses sent, followed by those queued, answer the accepted
    /// messages one for one from the first on. Only a session whose sink
    /// was closed, and whose queue is empty for that, may leave accepted
    /// messages unanswered.
    pub open spec fn inv(self) -> bool {
        &&& self.capacity > 0
        &&& self.pending.len() <= self.capacity
        &&& self.emitted.len() + self.pending.len() <= self.accepted.len()
        &&& forall|k: int|
            0 <= k < self.emitted.len() ==> self.emitted[k] == echo(#[trigger] self.accepted[k])
        &&& forall|k: int|
            0 <= k < self.pending.len() ==> #[trigger] self.pending[k] == echo(
                self.accepted[self.emitted.len() + k],
            )
        &&& self.phase != DuplexPhase::Aborted ==> self.emitted.len() + self.pending.len()
            == self.accepted.len()
        &&& self.phase == DuplexPhase::Aborted ==> self.pending.len() == 0
    }

    /// Whether the session will never emit again: its sink was closed, or
    /// its input is over and nothing is queued.
    pub open spec fn finished(self) -> bool {
        self.phase == DuplexPhase::Aborted || (self.phase != DuplexPhase::Open
            && self.pending.len() == 0)
    }

    /// What the draining side is told on one inbound event.
    pub open spec fn drain_step(self, event: Inbound) -> DrainStep {
        if self.phase != DuplexPhase::Open {
            DrainStep::Closed
        } else {
            match event {
                Inbound::Message(_) => if self.pending.len() < self.capacity {
                    DrainStep::Continue
                } else {
                    DrainStep::Backpressure
                },
                Inbound::End => DrainStep::Stop,
                Inbound::Failed => DrainStep::Stop,
                Inbound::Malformed => DrainStep::Stop,
            }
        }
    }

    /// The session after one inbound event: a message that finds room is
    /// queued as its echo, and end-of-input closes the input. A failed read
    /// closes it with a transport failure, a message that could not be
    /// taken as a request with a protocol violation; both leave the queue
    /// as it is.
    pub open spec fn after_inbound(self, event: Inbound) -> DuplexStreamView {
        if self.phase != DuplexPhase::Open {
            self
        } else {
            match event {
                Inbound::Message(ping) => if self.pending.len() < self.capacity {
                    DuplexStreamView {
                        pending: self.pending.push(echo(ping)),
                        accepted: self.accepted.push(ping),
                        ..self
                    }
                } else {
                    self
                },
                Inbound::End => DuplexStreamView { phase: DuplexPhase::Ended, ..self },
                Inbound::Failed => DuplexStreamView {
                    phase: DuplexPhase::Failed(AgentError::TransportIoFailure),
                    ..self
                },
                Inbound::Malformed => DuplexStreamView {
                    phase: DuplexPhase::Failed(AgentError::ProtocolViolation),
                    ..self
                },
            }
        }
    }

    /// The session after one turn of either side.
    pub open spec fn after_turn(self, turn: Turn) -> DuplexStreamView {
        match turn {
            Turn::Drain(event) => self.after_inbound(event),
            Turn::Emit { sink_open } => self.after_poll(sink_open),
        }
    }

    /// The session once the emitting side, with its sink open, has polled
    /// until nothing is queued.
    pub open spec fn after_flush(self) -> DuplexStreamView
        decreases self.pending.len(),
    {
        if self.pending.len() == 0 || self.phase == DuplexPhase::Aborted {
            self
        } else {
            self.after_poll(true).after_flush()
        }
    }

    /// The session after a schedule: any number of turns of the two sides,
    /// in any order.
    pub open spec fn after_turns(self, turns: Seq<Turn>) -> DuplexStreamView
        decreases turns.len(),
    {
        if turns.len() == 0 {
            self
        } else {
            self.after_turns(turns.drop_last()).after_turn(turns.last())
        }
    }

    /// What the emitting side is told on one poll.
    ///
    /// The output ends exactly when the input is over and nothing is
    /// queued: plainly after end-of-input, with the failure after a failed
    /// input. Short of that, a closed sink aborts the session; an open one
    /// gets the oldest queued response, or is told to wait.
    pub open spec fn emit_step(self, sink_open: bool) -> EmitStep {
        if self.phase == DuplexPhase::Aborted {
            EmitStep::Aborted
        } else if self.phase == DuplexPhase::Ended && self.pending.len() == 0 {
            EmitStep::End
        } else if self.phase is Failed && self.pending.len() == 0 {
            EmitStep::Fail(self.phase->Failed_0)
        } else if !sink_open {
            EmitStep::Aborted
        } else if self.pending.len() > 0 {
            EmitStep::Emit(self.pending[0])
        } else {
            EmitStep::Wait
        }
    }

    /// The session after one poll of the emitting side.
    pub open spec fn after_poll(self, sink_open: bool) -> DuplexStreamView {
        if self.phase == DuplexPhase::Aborted {
            self
        } else {
            match self.emit_step(sink_open) {
                EmitStep::Emit(pong) => DuplexStreamView {
                    pending: self.pending.skip(1),
                    emitted: self.emitted.push(pong),
                    ..self
                },
                EmitStep::Aborted => DuplexStreamView {
                    phase: DuplexPhase::Aborted,
                    pending: Seq::empty(),
                    ..self
                },
                EmitStep::Wait => self,
                EmitStep::End => self,
                EmitStep::Fail(_) => self,
            }
        }
    }
}

/// A duplex session: a bounded queue of responses between the side that
/// drains the input and the side that emits the output.
pub struct DuplexStream {
    pending: VecDeque<Pong>,
    capacity: usize,
    phase: DuplexPhase,
    accepted: Ghost<Seq<Ping>>,
    emitted: Ghost<Seq<Pong>>,
}

impl View for DuplexStream {
    type V = DuplexStreamView;

    closed spec fn view(&self) -> DuplexStreamView {
        DuplexStreamView {
            capacity: self.capacity as nat,
            pending: self.pending@,
            phase: self.phase,
            accepted: self.accepted@,
            emitted: self.emitted@,
        }
    }
}

impl DuplexStream {
    /// A session is well formed when its model's invariant holds.
    pub open spec fn wf(&self) -> bool {
        self@.inv()
    }

    /// A session with the default bound on its queue.
    pub fn new() -> (session: DuplexStream)
        ensures
            session.wf(),
            session@ == DuplexStreamView::initial(DEFAULT_CHANNEL_CAPACITY as nat),
    {
        DuplexStream {
            pending: VecDeque::new(),
            capacity: DEFAULT_CHANNEL_CAPACITY,
            phase: DuplexPhase::Open,
            accepted: Ghost(Seq::empty()),
            emitted: Ghost(Seq::empty()),
        }
    }

    /// A session whose queue holds at most `capacity` responses. A queue
    /// that could hold nothing would never let a message through, so there
    /// is no session for a capacity of zero.
    pub fn bounded(capacity: usize) -> (session: Option<DuplexStream>)
        ensures
            session is Some <==> capacity > 0,
            session matches Some(s) ==> s.wf() && s@ == DuplexStreamView::initial(capacity as nat),
    {
        if capacity == 0 {
            None
        } else {
            Some(
                DuplexStream {
                    pending: VecDeque::new(),
                    capacity,
                    phase: DuplexPhase::Open,
                    accepted: Ghost(Seq::empty()),
                    emitted: Ghost(Seq::empty()),
                },
            )
        }
    }

    /// The bound on the number of queued responses.
    pub fn capacity(&self) -> (capacity: usize)
        ensures
            capacity == self@.capacity,
    {
        self.capacity
    }

    /// How many responses are queued.
    pub fn pending_len(&self) -> (len: usize)
        ensures
            len == self@.pending.len(),
    {
        self.pending.len()
    }

    /// How far the session has come.
    pub fn phase(&self) -> (phase: DuplexPhase)
        ensures
            phase == self@.phase,
    {
        self.phase
    }

    /// Whether the session will never emit again.
    pub fn is_finished(&self) -> (finished: bool)
        ensures
            finished == self@.finished(),
    {
        match self.phase {
            DuplexPhase::Aborted => true,
            DuplexPhase::Ended => self.pending.len() == 0,
            DuplexPhase::Failed(_) => self.pending.len() == 0,
            DuplexPhase::Open => false,
        }
    }

    /// The draining side offers one inbound event.
    pub fn on_inbound(&mut self, event: Inbound) -> (step: DrainStep)
        requires
            old(self).wf(),
        ensures
            final(self).wf(),
            step == old(self)@.drain_step(event),
            final(self)@ == old(self)@.after_inbound(event),
    {
        match self.phase {
            DuplexPhase::Open => {},
            _ => {
                return DrainStep::Closed;
            },
        }
        match event {
            Inbound::Message(ping) => {
                if self.pending.len() < self.capacity {
                    self.pending.push_back(ping.echo());
                    self.accepted = Ghost(self.accepted@.push(ping));
                    DrainStep::Continue
                } else {
                    DrainStep::Backpressure
                }
            },
            Inbound::End => {
                self.phase = DuplexPhase::Ended;
                DrainStep::Stop
            },
            Inbound::Failed => {
                self.phase = DuplexPhase::Failed(AgentError::TransportIoFailure);
                DrainStep::Stop
            },
            Inbound::Malformed => {
                self.phase = DuplexPhase::Failed(AgentError::ProtocolViolation);
                DrainStep::Stop
            },
        }
    }

    /// The emitting side polls for what to do next. `sink_open` says whether
    /// the output sequence is still being consumed.
    pub fn poll_outbound(&mut self, sink_open: bool) -> (step: EmitStep)
        requires
            old(self).wf(),
        ensures
            final(self).wf(),
            step == old(self)@.emit_step(sink_open),
            final(self)@ == old(self)@.after_poll(sink_open),
    {
        match self.phase {
            DuplexPhase::Aborted => {
                return EmitStep::Aborted;
            },
            DuplexPhase::Ended => {
                if self.pending.len() == 0 {
                    return EmitStep::End;
                }
            },
            DuplexPhase::Failed(error) => {
                if self.pending.len() == 0 {
                    return EmitStep::Fail(error);
                }
            },
            DuplexPhase::Open => {},
        }
        if !sink_open {
            self.phase = DuplexPhase::Aborted;
            self.pending.clear();
            return EmitStep::Aborted;
        }
        match self.pending.pop_front() {
            Some(pong) => {
                self.emitted = Ghost(self.emitted@.push(pong));
                EmitStep::Emit(pong)
            },
            None => EmitStep::Wait,
        }
    }

    /// Lets the emitting side, with its sink open, take everything that is
    /// queued, and returns it, oldest first. What ends the output is the
    /// answer to the next poll.
    pub fn drain(&mut self) -> (outbound: Vec<Pong>)
        requires
            old(self).wf(),
        ensures
            final(self).wf(),
            final(self)@ == old(self)@.after_flush(),
            outbound@ == old(self)@.pending,
    {
        let mut outbound: Vec<Pong> = Vec::new();
        while self.pending.len() > 0
            invariant
                self.wf(),
                self@.after_flush() == old(self)@.after_flush(),
                outbound@ + self@.pending == old(self)@.pending,
            decreases self@.pending.len(),
        {
            let ghost before = self@;
            match self.poll_outbound(true) {
                EmitStep::Emit(pong) => {
                    outbound.push(pong);
                    assert(outbound@ + self@.pending =~= (outbound@.drop_last() + before.pending));
                },
                _ => unreached(),
            }
        }
        assert(outbound@ + self@.pending =~= outbound@);
        outbound
    }
}

/// Whatever the order in which the two sides took their turns: the k-th
/// response sent answers the k-th message accepted, and the output ends
/// exactly when the input is over and nothing is queued, at which point
/// every accepted message has been answered: plainly after end-of-input,
/// with the failure after a failed input.
pub proof fn lemma_outbound_answers_inbound_in_order(session: DuplexStreamView)
    requires
        session.inv(),
    ensures
        session.emitted.len() <= session.accepted.len(),
        forall|k: int|
            0 <= k < session.emitted.len() ==> #[trigger] session.emitted[k] == echo(
                session.accepted[k],
            ),
        forall|sink_open: bool|
            #[trigger] session.emit_step(sink_open) is End <==> session.phase == DuplexPhase::Ended
                && session.pending.len() == 0,
        forall|sink_open: bool|
            #[trigger] session.emit_step(sink_open) is Fail <==> session.phase is Failed
                && session.pending.len() == 0,
        forall|sink_open: bool|
            #[trigger] session.emit_step(sink_open) is Fail ==> session.phase
                == DuplexPhase::Failed(session.emit_step(sink_open)->Fail_0),
        session.emit_step(true) is End || session.emit_step(true) is Fail ==> session.emitted
            == echo_all(session.accepted),
{
    if session.emit_step(true) is End || session.emit_step(true) is Fail {
        assert(session.emitted =~= echo_all(session.accepted));
    }
}

/// Nothing that was accepted is lost when the input is over: once the
/// emitting side has polled, with its sink open, until nothing is queued,
/// every accepted message has been answered, in order, and the next poll
/// ends the output, plainly after end-of-input and with the failure after a
/// failed input.
pub proof fn lemma_queue_is_flushed(session: DuplexStreamView)
    requires
        session.inv(),
        session.phase != DuplexPhase::Aborted,
    ensures
        session.after_flush().inv(),
        session.after_flush().phase == session.phase,
        session.after_flush().accepted == session.accepted,
        session.after_flush().pending.len() == 0,
        session.after_flush().emitted == echo_all(session.accepted),
        session.after_flush().emitted == session.emitted + session.pending,
        session.after_flush().emit_step(true) == (match session.phase {
            DuplexPhase::Ended => EmitStep::End,
            DuplexPhase::Failed(error) => EmitStep::Fail(error),
            _ => EmitStep::Wait,
        }),
    decreases session.pending.len(),
{
    if session.pending.len() > 0 {
        let next = session.after_poll(true);
        lemma_inv_is_kept(session, Turn::Emit { sink_open: true });
        lemma_queue_is_flushed(next);
        assert(next.emitted + next.pending =~= session.emitted + session.pending);
    } else {
        assert(session.emitted =~= echo_all(session.accepted));
        assert(session.emitted + session.pending =~= session.emitted);
    }
}

/// The invariant holds of a new session and is kept by every turn of
/// either side.
pub proof fn lemma_inv_is_kept(session: DuplexStreamView, turn: Turn)
    requires
        session.inv(),
    ensures
        DuplexStreamView::initial(session.capacity).inv(),
        session.after_turn(turn).inv(),
{
}

/// Under every schedule, from a new session on: the k-th response sent
/// answers the k-th message accepted, and nothing is sent that was not
/// asked for.
pub proof fn lemma_every_schedule_keeps_the_order(capacity: nat, turns: Seq<Turn>)
    requires
        capacity > 0,
    ensures
        DuplexStreamView::initial(capacity).after_turns(turns).inv(),
        ({
            let session = DuplexStreamView::initial(capacity).after_turns(turns);
            &&& session.emitted.len() <= session.accepted.len()
            &&& forall|k: int|
                0 <= k < session.emitted.len() ==> #[trigger] session.emitted[k] == echo(
                    session.accepted[k],
                )
        }),
    decreases turns.len(),
{
    let start = DuplexStreamView::initial(capacity);
    if turns.len() > 0 {
        lemma_every_schedule_keeps_the_order(capacity, turns.drop_last());
        lemma_inv_is_kept(start.after_turns(turns.drop_last()), turns.last());
    }
    lemma_outbound_answers_inbound_in_order(start.after_turns(turns));
}

/// A dropped connection ends the session. A failed read stops the reading
/// in that one turn and loses nothing: what was accepted stays queued, the
/// emitting side still gets it oldest first, and only when nothing is
/// queued does the output end, with a transport failure. A poll that finds
/// the sink closed finishes the session in that one turn: it never emits
/// again and reads nothing more.
pub proof fn lemma_dropped_connection_ends_session(
    session: DuplexStreamView,
    later_event: Inbound,
    later_sink_open: bool,
)
    requires
        session.inv(),
    ensures
        session.phase == DuplexPhase::Open ==> ({
            let failed = session.after_inbound(Inbound::Failed);
            &&& failed.drain_step(later_event) is Closed
            &&& failed.pending == session.pending
            &&& failed.accepted == session.accepted
            &&& failed.emitted == session.emitted
            &&& failed.finished() <==> session.pending.len() == 0
            &&& failed.emit_step(true) == (if session.pending.len() > 0 {
                EmitStep::Emit(session.pending[0])
            } else {
                EmitStep::Fail(AgentError::TransportIoFailure)
            })
            &&& failed.after_flush().emitted == echo_all(session.accepted)
            &&& failed.after_flush().emit_step(true) == EmitStep::Fail(
                AgentError::TransportIoFailure,
            )
        }),
        session.after_poll(false).finished(),
        !(session.after_poll(false).emit_step(later_sink_open) is Emit),
        session.after_poll(false).drain_step(later_event) is Closed,
{
    if session.phase == DuplexPhase::Open {
        lemma_inv_is_kept(session, Turn::Drain(Inbound::Failed));
        lemma_queue_is_flushed(session.after_inbound(Inbound::Failed));
    }
}

} // verus!
