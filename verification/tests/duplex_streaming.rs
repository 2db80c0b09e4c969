use guest_agent::duplex::{
    DrainStep, DuplexPhase, DuplexStream, EmitStep, DEFAULT_CHANNEL_CAPACITY,
};
use guest_agent::error::AgentError;
use guest_agent::handlers::App;
use guest_agent::message::{Inbound, Ping, Pong};

fn ping(number: u32) -> Inbound {
    Inbound::Message(Ping { number })
}

#[test]
fn duplex_streaming_echoes_in_order() {
    let inbound: Vec<Ping> = [3u32, 1, 4, 1, 5, 9, 2, 6].iter().map(|&number| Ping { number }).collect();
    let expected: Vec<Pong> = [3u32, 1, 4, 1, 5, 9, 2, 6].iter().map(|&number| Pong { number }).collect();
    assert_eq!(App.duplex_streaming(&inbound), expected);
}

#[test]
fn duplex_streaming_of_nothing_is_nothing() {
    assert_eq!(App.duplex_streaming(&[]), Vec::<Pong>::new());
}

#[test]
fn duplex_streaming_keeps_zeros() {
    assert_eq!(
        App.duplex_streaming(&[Ping { number: 0 }, Ping { number: u32::MAX }]),
        vec![Pong { number: 0 }, Pong { number: u32::MAX }]
    );
}

#[test]
fn duplex_streaming_beyond_the_queue_bound() {
    let inbound: Vec<Ping> = (0..1000u32).map(|number| Ping { number }).collect();
    let expected: Vec<Pong> = (0..1000u32).map(|number| Pong { number }).collect();
    assert!(inbound.len() > DEFAULT_CHANNEL_CAPACITY);
    assert_eq!(App.duplex_streaming(&inbound), expected);
}

#[test]
fn ping_echo_carries_the_number_back() {
    assert_eq!(Ping { number: 17 }.echo(), Pong { number: 17 });
}

#[test]
fn duplex_session_default_capacity() {
    let session = DuplexStream::new();
    assert_eq!(session.capacity(), 64);
    assert_eq!(session.pending_len(), 0);
    assert_eq!(session.phase(), DuplexPhase::Open);
    assert!(!session.is_finished());
}

#[test]
fn duplex_session_needs_room_for_one() {
    assert!(DuplexStream::bounded(0).is_none());
    let session = DuplexStream::bounded(1).expect("a queue of one");
    assert_eq!(session.capacity(), 1);
}

#[test]
fn duplex_session_waits_while_nothing_is_queued() {
    let mut session = DuplexStream::new();
    assert_eq!(session.poll_outbound(true), EmitStep::Wait);
    assert_eq!(session.on_inbound(ping(8)), DrainStep::Continue);
    assert_eq!(session.poll_outbound(true), EmitStep::Emit(Pong { number: 8 }));
    assert_eq!(session.poll_outbound(true), EmitStep::Wait);
}

#[test]
fn duplex_session_holds_the_producer_back_when_full() {
    let mut session = DuplexStream::bounded(2).expect("a queue of two");
    assert_eq!(session.on_inbound(ping(1)), DrainStep::Continue);
    assert_eq!(session.on_inbound(ping(2)), DrainStep::Continue);
    assert_eq!(session.on_inbound(ping(3)), DrainStep::Backpressure);
    assert_eq!(session.pending_len(), 2);
    assert_eq!(session.poll_outbound(true), EmitStep::Emit(Pong { number: 1 }));
    assert_eq!(session.on_inbound(ping(3)), DrainStep::Continue);
    assert_eq!(session.poll_outbound(true), EmitStep::Emit(Pong { number: 2 }));
    assert_eq!(session.poll_outbound(true), EmitStep::Emit(Pong { number: 3 }));
    assert_eq!(session.poll_outbound(true), EmitStep::Wait);
}

#[test]
fn duplex_session_flushes_what_is_queued_before_it_ends() {
    let mut session = DuplexStream::new();
    assert_eq!(session.on_inbound(ping(10)), DrainStep::Continue);
    assert_eq!(session.on_inbound(ping(20)), DrainStep::Continue);
    assert_eq!(session.on_inbound(Inbound::End), DrainStep::Stop);
    assert_eq!(session.phase(), DuplexPhase::Ended);
    assert!(!session.is_finished());
    assert_eq!(session.poll_outbound(true), EmitStep::Emit(Pong { number: 10 }));
    assert_eq!(session.poll_outbound(true), EmitStep::Emit(Pong { number: 20 }));
    assert!(session.is_finished());
    assert_eq!(session.poll_outbound(true), EmitStep::End);
    assert_eq!(session.poll_outbound(false), EmitStep::End);
}

#[test]
fn duplex_session_reads_nothing_after_end_of_input() {
    let mut session = DuplexStream::new();
    assert_eq!(session.on_inbound(Inbound::End), DrainStep::Stop);
    assert_eq!(session.on_inbound(ping(1)), DrainStep::Closed);
    assert_eq!(session.on_inbound(Inbound::End), DrainStep::Closed);
    assert_eq!(session.on_inbound(Inbound::Failed), DrainStep::Closed);
    assert_eq!(session.phase(), DuplexPhase::Ended);
    assert_eq!(session.poll_outbound(true), EmitStep::End);
}

#[test]
fn duplex_session_failed_read_flushes_the_queue_then_fails() {
    let mut session = DuplexStream::new();
    assert_eq!(session.on_inbound(ping(1)), DrainStep::Continue);
    assert_eq!(session.on_inbound(ping(2)), DrainStep::Continue);
    assert_eq!(session.on_inbound(ping(3)), DrainStep::Continue);
    assert_eq!(session.on_inbound(Inbound::Failed), DrainStep::Stop);
    assert_eq!(session.phase(), DuplexPhase::Failed(AgentError::TransportIoFailure));
    assert_eq!(session.pending_len(), 3);
    assert!(!session.is_finished());
    assert_eq!(session.on_inbound(ping(4)), DrainStep::Closed);
    assert_eq!(session.poll_outbound(true), EmitStep::Emit(Pong { number: 1 }));
    assert_eq!(session.poll_outbound(true), EmitStep::Emit(Pong { number: 2 }));
    assert_eq!(session.poll_outbound(true), EmitStep::Emit(Pong { number: 3 }));
    assert!(session.is_finished());
    assert_eq!(session.poll_outbound(true), EmitStep::Fail(AgentError::TransportIoFailure));
    assert_eq!(session.poll_outbound(true), EmitStep::Fail(AgentError::TransportIoFailure));
    assert_eq!(session.poll_outbound(false), EmitStep::Fail(AgentError::TransportIoFailure));
}

#[test]
fn duplex_session_failed_read_on_an_empty_queue_fails_at_once() {
    let mut session = DuplexStream::new();
    assert_eq!(session.on_inbound(ping(1)), DrainStep::Continue);
    assert_eq!(session.poll_outbound(true), EmitStep::Emit(Pong { number: 1 }));
    assert_eq!(session.on_inbound(Inbound::Failed), DrainStep::Stop);
    assert!(session.is_finished());
    assert_eq!(session.poll_outbound(true), EmitStep::Fail(AgentError::TransportIoFailure));
}

#[test]
fn duplex_session_malformed_message_flushes_the_queue_then_fails() {
    let mut session = DuplexStream::new();
    assert_eq!(session.on_inbound(ping(7)), DrainStep::Continue);
    assert_eq!(session.on_inbound(Inbound::Malformed), DrainStep::Stop);
    assert_eq!(session.phase(), DuplexPhase::Failed(AgentError::ProtocolViolation));
    assert_eq!(session.on_inbound(ping(8)), DrainStep::Closed);
    assert_eq!(session.poll_outbound(true), EmitStep::Emit(Pong { number: 7 }));
    assert_eq!(session.poll_outbound(true), EmitStep::Fail(AgentError::ProtocolViolation));
}

#[test]
fn duplex_session_failed_read_with_a_full_queue_loses_nothing_accepted() {
    let mut session = DuplexStream::bounded(2).expect("a queue of two");
    assert_eq!(session.on_inbound(ping(1)), DrainStep::Continue);
    assert_eq!(session.on_inbound(ping(2)), DrainStep::Continue);
    assert_eq!(session.on_inbound(ping(3)), DrainStep::Backpressure);
    assert_eq!(session.poll_outbound(true), EmitStep::Emit(Pong { number: 1 }));
    assert_eq!(session.on_inbound(ping(3)), DrainStep::Continue);
    assert_eq!(session.on_inbound(Inbound::Failed), DrainStep::Stop);
    assert_eq!(session.poll_outbound(true), EmitStep::Emit(Pong { number: 2 }));
    assert_eq!(session.poll_outbound(true), EmitStep::Emit(Pong { number: 3 }));
    assert_eq!(session.poll_outbound(true), EmitStep::Fail(AgentError::TransportIoFailure));
}

#[test]
fn duplex_session_closed_sink_drops_the_queue_of_a_failed_input() {
    let mut session = DuplexStream::new();
    assert_eq!(session.on_inbound(ping(1)), DrainStep::Continue);
    assert_eq!(session.on_inbound(Inbound::Failed), DrainStep::Stop);
    assert_eq!(session.poll_outbound(false), EmitStep::Aborted);
    assert_eq!(session.phase(), DuplexPhase::Aborted);
    assert_eq!(session.pending_len(), 0);
    assert_eq!(session.poll_outbound(true), EmitStep::Aborted);
}

#[test]
fn duplex_session_closed_sink_aborts() {
    let mut session = DuplexStream::new();
    assert_eq!(session.on_inbound(ping(1)), DrainStep::Continue);
    assert_eq!(session.poll_outbound(false), EmitStep::Aborted);
    assert_eq!(session.phase(), DuplexPhase::Aborted);
    assert_eq!(session.pending_len(), 0);
    assert_eq!(session.poll_outbound(true), EmitStep::Aborted);
    assert_eq!(session.on_inbound(ping(2)), DrainStep::Closed);
}

#[test]
fn duplex_session_closed_sink_aborts_an_idle_session() {
    let mut session = DuplexStream::new();
    assert_eq!(session.poll_outbound(false), EmitStep::Aborted);
    assert!(session.is_finished());
}

#[test]
fn duplex_session_interleaved_turns_keep_the_order() {
    let mut session = DuplexStream::bounded(3).expect("a queue of three");
    let mut outbound = Vec::new();
    for number in 0..50u32 {
        loop {
            match session.on_inbound(ping(number)) {
                DrainStep::Continue => break,
                DrainStep::Backpressure => match session.poll_outbound(true) {
                    EmitStep::Emit(pong) => outbound.push(pong),
                    other => panic!("a full queue must emit, not {:?}", other),
                },
                other => panic!("an open session must read, not {:?}", other),
            }
        }
        if number % 7 == 0 {
            if let EmitStep::Emit(pong) = session.poll_outbound(true) {
                outbound.push(pong);
            }
        }
    }
    assert_eq!(session.on_inbound(Inbound::End), DrainStep::Stop);
    loop {
        match session.poll_outbound(true) {
            EmitStep::Emit(pong) => outbound.push(pong),
            EmitStep::End => break,
            other => panic!("an ended session must flush, not {:?}", other),
        }
    }
    let expected: Vec<Pong> = (0..50u32).map(|number| Pong { number }).collect();
    assert_eq!(outbound, expected);
}

#[test]
fn duplex_session_drain_takes_what_is_queued() {
    let mut session = DuplexStream::new();
    assert_eq!(session.drain(), Vec::<Pong>::new());
    assert_eq!(session.on_inbound(ping(4)), DrainStep::Continue);
    assert_eq!(session.on_inbound(ping(5)), DrainStep::Continue);
    assert_eq!(session.drain(), vec![Pong { number: 4 }, Pong { number: 5 }]);
    assert_eq!(session.pending_len(), 0);
    assert_eq!(session.phase(), DuplexPhase::Open);
    assert_eq!(session.poll_outbound(true), EmitStep::Wait);
    assert_eq!(session.on_inbound(ping(6)), DrainStep::Continue);
    assert_eq!(session.on_inbound(Inbound::End), DrainStep::Stop);
    assert_eq!(session.drain(), vec![Pong { number: 6 }]);
    assert_eq!(session.poll_outbound(true), EmitStep::End);
}

#[test]
fn duplex_session_drain_after_a_failed_read_answers_all_that_was_read() {
    let mut session = DuplexStream::new();
    for number in 1..=3u32 {
        assert_eq!(session.on_inbound(ping(number)), DrainStep::Continue);
    }
    assert_eq!(session.on_inbound(Inbound::Failed), DrainStep::Stop);
    assert_eq!(
        session.drain(),
        vec![Pong { number: 1 }, Pong { number: 2 }, Pong { number: 3 }]
    );
    assert_eq!(session.poll_outbound(true), EmitStep::Fail(AgentError::TransportIoFailure));
}

#[test]
fn duplex_session_drain_of_an_aborted_session_is_empty() {
    let mut session = DuplexStream::new();
    assert_eq!(session.on_inbound(ping(1)), DrainStep::Continue);
    assert_eq!(session.poll_outbound(false), EmitStep::Aborted);
    assert_eq!(session.drain(), Vec::<Pong>::new());
    assert_eq!(session.poll_outbound(true), EmitStep::Aborted);
}
