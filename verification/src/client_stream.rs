//! The client-streaming call: many requests in, one response out once the
//! client has signalled end-of-input.

use vstd::prelude::*;
use crate::error::AgentError;
use crate::message::{Inbound, Ping, Pong};
use crate::product::{
    lemma_nonzero_product_of_zeros, lemma_nonzero_product_prefix, lemma_nonzero_product_push,
    nonzero_product,
};

verus! {

/// What a client-streaming session asks of its driver after one inbound
/// event.
#[derive(Clone, Copy, Debug, PartialEq, Eq, Structural)]
pub enum ClientStep {
    /// The event was absorbed: read the next one.
    Continue,
    /// The input is fully drained: send this one response and end the call.
    Reply(Pong),
    /// The call fails with this status; nothing else is sent.
    Fail(AgentError),
    /// The session had already ended; the event was ignored.
    Closed,
}

/// The model of a client-streaming session: the numbers read so far and
/// whether the call has ended.
pub struct ClientStreamView {
    pub seen: Seq<u32>,
    pub finished: bool,
}

/// The response owed for a fully drained input: the aggregate where it fits
/// the response's number, a protocol violation where it does not.
pub open spec fn client_reply(xs: Seq<u32>) -> Result<Pong, AgentError> {
    if nonzero_product(xs) <= u32::MAX {
        Ok(Pong { number: nonzero_product(xs) as u32 })
    } else {
        Err(AgentError::ProtocolViolation)
    }
}

impl ClientStreamView {
    /// What holds of every session: while it drains, the aggregate of what
    /// it has read is in range.
    pub open spec fn inv(self) -> bool {
        !self.finished ==> nonzero_product(self.seen) <= u32::MAX
    }

    /// A session that has read nothing yet.
    pub open spec fn initial() -> ClientStreamView {
        ClientStreamView { seen: Seq::empty(), finished: false }
    }

    /// The session after one inbound event.
    pub open spec fn next(self, event: Inbound) -> ClientStreamView {
        if self.finished {
            self
        } else {
            match event {
                Inbound::Message(ping) => ClientStreamView {
                    seen: self.seen.push(ping.number),
                    finished: nonzero_product(self.seen.push(ping.number)) > u32::MAX,
                },
                Inbound::End => ClientStreamView { seen: self.seen, finished: true },
                Inbound::Failed => ClientStreamView { seen: self.seen, finished: true },
                Inbound::Malformed => ClientStreamView { seen: self.seen, finished: true },
            }
        }
    }

    /// The session after the messages that carry `xs`, in order.
    pub open spec fn after_messages(self, xs: Seq<u32>) -> ClientStreamView
        decreases xs.len(),
    {
        if xs.len() == 0 {
            self
        } else {
            self.after_messages(xs.drop_last()).next(Inbound::Message(Ping { number: xs.last() }))
        }
    }

    /// What the session asks of its driver on one inbound event.
    ///
    /// A message is absorbed while the aggregate stays in range; the first
    /// message that takes it out of range fails the call at once. The
    /// client's end-of-input is answered with the aggregate, a failed read
    /// with a transport failure, and a message that could not be taken as
    /// a request with a protocol violation.
    pub open spec fn step(self, event: Inbound) -> ClientStep {
        if self.finished {
            ClientStep::Closed
        } else {
            match event {
                Inbound::Message(ping) => if nonzero_product(self.seen.push(ping.number))
                    <= u32::MAX {
                    ClientStep::Continue
                } else {
                    ClientStep::Fail(AgentError::ProtocolViolation)
                },
                Inbound::End => ClientStep::Reply(
                    Pong { number: nonzero_product(self.seen) as u32 },
                ),
                Inbound::Failed => ClientStep::Fail(AgentError::TransportIoFailure),
                Inbound::Malformed => ClientStep::Fail(AgentError::ProtocolViolation),
            }
        }
    }
}

/// A client-streaming session: it folds the inbound numbers into their
/// aggregate, one event at a time.
pub struct ClientStream {
    product: u32,
    finished: bool,
    seen: Ghost<Seq<u32>>,
}

impl View for ClientStream {
    type V = ClientStreamView;

    closed spec fn view(&self) -> ClientStreamView {
        ClientStreamView { seen: self.seen@, finished: self.finished }
    }
}

impl ClientStream {
    /// While the session drains, the running product is the aggregate of
    /// what was read.
    pub closed spec fn wf(&self) -> bool {
        !self.finished ==> self.product == nonzero_product(self.seen@)
    }

    /// A well-formed session's model keeps its invariant.
    pub proof fn lemma_wf_view(&self)
        requires
            self.wf(),
        ensures
            self@.inv(),
    {
    }

    /// A session that has read nothing yet.
    pub fn new() -> (session: ClientStream)
        ensures
            session.wf(),
            session@ == ClientStreamView::initial(),
    {
        ClientStream { product: 1, finished: false, seen: Ghost(Seq::empty()) }
    }

    /// Whether the call has ended, by a response or by a failure.
    pub fn is_finished(&self) -> (finished: bool)
        ensures
            finished == self@.finished,
    {
        self.finished
    }

    /// Takes one inbound event and says what to do next.
    pub fn on_inbound(&mut self, event: Inbound) -> (step: ClientStep)
        requires
            old(self).wf(),
        ensures
            final(self).wf(),
            final(self)@ == old(self)@.next(event),
            step == old(self)@.step(event),
    {
        if self.finished {
            return ClientStep::Closed;
        }
        match event {
            Inbound::Message(ping) => {
                let multiplier: u32 = if ping.number == 0 {
                    1
                } else {
                    ping.number
                };
                proof {
                    lemma_nonzero_product_push(self.seen@, ping.number);
                }
                self.seen = Ghost(self.seen@.push(ping.number));
                match self.product.checked_mul(multiplier) {
                    Some(product) => {
                        self.product = product;
                        ClientStep::Continue
                    },
                    None => {
                        self.finished = true;
                        ClientStep::Fail(AgentError::ProtocolViolation)
                    },
                }
            },
            Inbound::End => {
                self.finished = true;
                ClientStep::Reply(Pong { number: self.product })
            },
            Inbound::Failed => {
                self.finished = true;
                ClientStep::Fail(AgentError::TransportIoFailure)
            },
            Inbound::Malformed => {
                self.finished = true;
                ClientStep::Fail(AgentError::ProtocolViolation)
            },
        }
    }
}

/// A failed read, and a message that could not be taken as a request,
/// finish the session in that one turn: the first as a transport failure,
/// the second as a protocol violation. A finished session ignores whatever
/// comes after.
pub proof fn lemma_failed_read_ends_session(session: ClientStreamView, later_event: Inbound)
    ensures
        session.next(Inbound::Failed).finished,
        session.next(Inbound::Failed).step(later_event) is Closed,
        session.next(Inbound::Failed).next(later_event) == session.next(Inbound::Failed),
        session.next(Inbound::Malformed).finished,
        session.next(Inbound::Malformed).step(later_event) is Closed,
        session.next(Inbound::Malformed).next(later_event) == session.next(Inbound::Malformed),
        !session.finished ==> session.step(Inbound::Failed) == ClientStep::Fail(
            AgentError::TransportIoFailure,
        ) && session.step(Inbound::Malformed) == ClientStep::Fail(AgentError::ProtocolViolation),
{
}

/// For every input: a new session that is fed the input message by message
/// is still reading at its end exactly when the aggregate is in range, and
/// then answers the end-of-input with the aggregate; where the aggregate is
/// out of range, the call has failed by then.
pub proof fn lemma_every_input_is_answered(xs: Seq<u32>)
    ensures
        ({
            let session = ClientStreamView::initial().after_messages(xs);
            &&& session.inv()
            &&& session.finished <==> client_reply(xs) is Err
            &&& !session.finished ==> session.seen == xs && session.step(Inbound::End)
                == ClientStep::Reply(client_reply(xs)->Ok_0)
        }),
    decreases xs.len(),
{
    if xs.len() > 0 {
        let earlier = xs.drop_last();
        lemma_every_input_is_answered(earlier);
        lemma_nonzero_product_prefix(xs, earlier.len() as int);
        assert(xs.take(earlier.len() as int) =~= earlier);
        let before = ClientStreamView::initial().after_messages(earlier);
        if !before.finished {
            assert(before.seen.push(xs.last()) =~= xs);
        }
    }
}

/// An input of zeros only, the empty input among them, is answered with
/// the multiplicative identity.
pub proof fn lemma_zeros_are_answered_with_one(xs: Seq<u32>)
    requires
        forall|i: int| 0 <= i < xs.len() ==> xs[i] == 0,
    ensures
        client_reply(xs) == Ok::<Pong, AgentError>(Pong { number: 1 }),
{
    lemma_nonzero_product_of_zeros(xs);
}

/// An input that has gone out of range stays out of range however it goes
/// on: failing a call at the first such message fails no call that its
/// whole input would not fail.
pub proof fn lemma_out_of_range_prefix_fails_the_call(xs: Seq<u32>, len: int)
    requires
        0 <= len <= xs.len(),
        client_reply(xs.take(len)) is Err,
    ensures
        client_reply(xs) == Err::<Pong, AgentError>(AgentError::ProtocolViolation),
{
    lemma_nonzero_product_prefix(xs, len);
}

} // verus!
