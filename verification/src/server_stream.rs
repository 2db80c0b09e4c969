//! The server-streaming call: one request in, a bounded and paced sequence
//! of responses out.

use vstd::prelude::*;
use crate::message::{Ping, Pong};

verus! {

/// The pause between two responses of a server stream, in milliseconds.
pub const PACING_INTERVAL_MS: u64 = 50;

/// What a server-streaming session asks of its driver when it is polled.
#[derive(Clone, Copy, Debug, PartialEq, Eq, Structural)]
pub enum ServerStep {
    /// Send `pong`, then pause for `pause_ms` milliseconds before polling
    /// again.
    Emit { pong: Pong, pause_ms: u64 },
    /// Every response has been sent: end the output sequence.
    Done,
    /// The sink is no longer consumed: nothing more is produced.
    Cancelled,
}

/// The model of a server-streaming session.
pub struct ServerStreamView {
    /// The request's number: how many responses are owed, and what each one
    /// carries.
    pub number: u32,
    /// How many responses have been handed out.
    pub sent: nat,
    /// Whether the session gave up because its sink was closed.
    pub cancelled: bool,
}

impl ServerStreamView {
    /// What holds of every session: no more responses are handed out than
    /// the request asked for.
    pub open spec fn inv(self) -> bool {
        self.sent <= self.number
    }

    /// A session that has sent nothing yet.
    pub open spec fn initial(request: Ping) -> ServerStreamView {
        ServerStreamView { number: request.number, sent: 0, cancelled: false }
    }

    /// The one response that the session repeats.
    pub open spec fn pong(self) -> Pong {
        Pong { number: self.number }
    }

    /// How many responses are still owed.
    pub open spec fn remaining(self) -> nat {
        if self.cancelled {
            0
        } else {
            (self.number - self.sent) as nat
        }
    }

    /// Whether the session will never emit again.
    pub open spec fn finished(self) -> bool {
        self.cancelled || self.sent == self.number
    }

    /// The responses handed out so far.
    pub open spec fn emitted(self) -> Seq<Pong> {
        Seq::new(self.sent, |i: int| self.pong())
    }

    /// What the session asks of its driver on one poll.
    ///
    /// A cancelled session stays cancelled. A session whose sink was closed
    /// gives up unless it was already done. Otherwise it emits until the
    /// request's number of responses is reached.
    pub open spec fn step(self, sink_open: bool) -> ServerStep {
        if self.cancelled {
            ServerStep::Cancelled
        } else if self.sent == self.number {
            ServerStep::Done
        } else if !sink_open {
            ServerStep::Cancelled
        } else {
            ServerStep::Emit { pong: self.pong(), pause_ms: PACING_INTERVAL_MS }
        }
    }

    /// The session after one poll.
    pub open spec fn next(self, sink_open: bool) -> ServerStreamView {
        match self.step(sink_open) {
            ServerStep::Emit { .. } => ServerStreamView { sent: self.sent + 1, ..self },
            ServerStep::Done => self,
            ServerStep::Cancelled => ServerStreamView { cancelled: true, ..self },
        }
    }

    /// The session after a run of polls; `sinks[i]` is what the i-th poll
    /// reported of the sink.
    pub open spec fn after_polls(self, sinks: Seq<bool>) -> ServerStreamView
        decreases sinks.len(),
    {
        if sinks.len() == 0 {
            self
        } else {
            self.after_polls(sinks.drop_last()).next(sinks.last())
        }
    }
}

/// A server-streaming session: it hands out the request's number of
/// responses, one per poll, until it is done or its sink is closed.
pub struct ServerStream {
    number: u32,
    sent: u32,
    cancelled: bool,
}

impl View for ServerStream {
    type V = ServerStreamView;

    closed spec fn view(&self) -> ServerStreamView {
        ServerStreamView { number: self.number, sent: self.sent as nat, cancelled: self.cancelled }
    }
}

impl ServerStream {
    /// A session is well formed when its model's invariant holds.
    pub open spec fn wf(&self) -> bool {
        self@.inv()
    }

    /// The session for one request.
    pub fn new(request: Ping) -> (session: ServerStream)
        ensures
            session.wf(),
            session@ == ServerStreamView::initial(request),
    {
        ServerStream { number: request.number, sent: 0, cancelled: false }
    }

    /// How many responses are still owed.
    pub fn remaining(&self) -> (remaining: u32)
        requires
            self.wf(),
        ensures
            remaining == self@.remaining(),
    {
        if self.cancelled {
            0
        } else {
            self.number - self.sent
        }
    }

    /// Whether the session will never emit again.
    pub fn is_finished(&self) -> (finished: bool)
        ensures
            finished == self@.finished(),
    {
        self.cancelled || self.sent == self.number
    }

    /// Polls the session once. `sink_open` says whether the output sequence
    /// is still being consumed.
    pub fn poll_next(&mut self, sink_open: bool) -> (step: ServerStep)
        requires
            old(self).wf(),
        ensures
            final(self).wf(),
            step == old(self)@.step(sink_open),
            final(self)@ == old(self)@.next(sink_open),
    {
        if self.cancelled {
            ServerStep::Cancelled
        } else if self.sent == self.number {
            ServerStep::Done
        } else if !sink_open {
            self.cancelled = true;
            ServerStep::Cancelled
        } else {
            self.sent = self.sent + 1;
            ServerStep::Emit { pong: Pong { number: self.number }, pause_ms: PACING_INTERVAL_MS }
        }
    }

    /// Runs the session to its end against a sink that stays open, and
    /// returns what it emitted: every response still owed, in order.
    pub fn drain(&mut self) -> (outbound: Vec<Pong>)
        requires
            old(self).wf(),
        ensures
            final(self).wf(),
            final(self)@.finished(),
            final(self)@ == (ServerStreamView {
                sent: old(self)@.sent + old(self)@.remaining(),
                ..old(self)@
            }),
            outbound@ == Seq::new(old(self)@.remaining(), |i: int| old(self)@.pong()),
    {
        let mut outbound: Vec<Pong> = Vec::new();
        loop
            invariant
                self.wf(),
                self@.number == old(self)@.number,
                self@.cancelled == old(self)@.cancelled,
                old(self)@.sent <= self@.sent,
                self@.sent + self@.remaining() == old(self)@.sent + old(self)@.remaining(),
                outbound@ == Seq::new(
                    (self@.sent - old(self)@.sent) as nat,
                    |i: int| old(self)@.pong(),
                ),
            ensures
                self.wf(),
                self@.finished(),
                self@.number == old(self)@.number,
                self@.cancelled == old(self)@.cancelled,
                self@.sent == old(self)@.sent + old(self)@.remaining(),
                outbound@ == Seq::new(old(self)@.remaining(), |i: int| old(self)@.pong()),
            decreases self@.remaining(),
        {
            match self.poll_next(true) {
                ServerStep::Emit { pong, .. } => {
                    outbound.push(pong);
                    assert(outbound@ =~= Seq::new(
                        (self@.sent - old(self)@.sent) as nat,
                        |i: int| old(self)@.pong(),
                    ));
                },
                _ => {
                    break ;
                },
            }
        }
        outbound
    }

    /// Gives the session up: nothing more is produced.
    pub fn cancel(&mut self)
        requires
            old(self).wf(),
        ensures
            final(self).wf(),
            final(self)@ == (ServerStreamView { cancelled: true, ..old(self)@ }),
    {
        self.cancelled = true;
    }
}

/// A session that is polled with a closed sink is finished after that one
/// poll, and every later poll produces nothing, whatever the sink says.
pub proof fn lemma_closed_sink_stops_production(session: ServerStreamView, later_sink_open: bool)
    requires
        session.inv(),
    ensures
        session.next(false).finished(),
        !(session.next(false).step(later_sink_open) is Emit),
        session.next(false).next(later_sink_open) == session.next(false),
        session.next(false).emitted() == session.emitted(),
{
}

/// A session never hands out more than the request's number of responses,
/// and each one carries that number.
pub proof fn lemma_emitted_are_the_request(session: ServerStreamView)
    requires
        session.inv(),
    ensures
        session.emitted().len() <= session.number,
        forall|i: int| 0 <= i < session.emitted().len() ==> session.emitted()[i].number
            == session.number,
        session.step(true) is Done <==> !session.cancelled && session.emitted().len()
            == session.number,
{
}

/// Under every run of polls, from a new session on: each poll hands out at
/// most one response and never more than the request's number in all. While
/// the sink stays open, the output grows by one per poll until it has
/// exactly that number of elements. A poll that finds the sink closed before
/// then ends the output where it stands.
pub proof fn lemma_every_run_of_polls(request: Ping, sinks: Seq<bool>)
    ensures
        ({
            let session = ServerStreamView::initial(request).after_polls(sinks);
            &&& session.inv()
            &&& session.number == request.number
            &&& session.sent <= sinks.len()
            &&& (forall|i: int| 0 <= i < sinks.len() ==> sinks[i]) ==> !session.cancelled
                && session.sent == vstd::math::min(sinks.len() as int, request.number as int)
            &&& forall|i: int|
                0 <= i < sinks.len() && !#[trigger] sinks[i] && i < request.number
                    ==> session.cancelled && session.sent <= i
        }),
    decreases sinks.len(),
{
    if sinks.len() > 0 {
        let earlier = sinks.drop_last();
        lemma_every_run_of_polls(request, earlier);
        let before = ServerStreamView::initial(request).after_polls(earlier);
        let session = before.next(sinks.last());
        assert forall|i: int|
            0 <= i < sinks.len() && !#[trigger] sinks[i] && i < request.number implies session.cancelled
            && session.sent <= i by {
            if i < earlier.len() {
                assert(earlier[i] == sinks[i]);
            }
        }
        if forall|i: int| 0 <= i < sinks.len() ==> sinks[i] {
            assert forall|i: int| 0 <= i < earlier.len() implies earlier[i] by {
                assert(earlier[i] == sinks[i]);
            }
        }
    }
}

} // verus!
