use guest_agent::handlers::App;
use guest_agent::message::{Ping, Pong};
use guest_agent::server_stream::{ServerStep, ServerStream, PACING_INTERVAL_MS};

#[test]
fn server_streaming_repeats_the_number_that_many_times() {
    let outbound = App.server_streaming(Ping { number: 4 });
    assert_eq!(outbound, vec![Pong { number: 4 }; 4]);
}

#[test]
fn server_streaming_of_zero_sends_nothing() {
    assert_eq!(App.server_streaming(Ping { number: 0 }), Vec::<Pong>::new());
}

#[test]
fn server_streaming_of_one_sends_one() {
    assert_eq!(App.server_streaming(Ping { number: 1 }), vec![Pong { number: 1 }]);
}

#[test]
fn server_streaming_of_a_thousand() {
    let outbound = App.server_streaming(Ping { number: 1000 });
    assert_eq!(outbound.len(), 1000);
    assert!(outbound.iter().all(|pong| *pong == Pong { number: 1000 }));
}

#[test]
fn pacing_interval_is_fifty_milliseconds() {
    assert_eq!(PACING_INTERVAL_MS, 50);
}

#[test]
fn server_session_emits_then_is_done() {
    let mut session = ServerStream::new(Ping { number: 2 });
    assert_eq!(session.remaining(), 2);
    assert!(!session.is_finished());
    let emit = ServerStep::Emit { pong: Pong { number: 2 }, pause_ms: 50 };
    assert_eq!(session.poll_next(true), emit);
    assert_eq!(session.remaining(), 1);
    assert_eq!(session.poll_next(true), emit);
    assert_eq!(session.remaining(), 0);
    assert!(session.is_finished());
    assert_eq!(session.poll_next(true), ServerStep::Done);
    assert_eq!(session.poll_next(true), ServerStep::Done);
}

#[test]
fn server_session_stops_when_its_sink_is_closed() {
    let mut session = ServerStream::new(Ping { number: 5 });
    assert_eq!(
        session.poll_next(true),
        ServerStep::Emit { pong: Pong { number: 5 }, pause_ms: 50 }
    );
    assert_eq!(
        session.poll_next(true),
        ServerStep::Emit { pong: Pong { number: 5 }, pause_ms: 50 }
    );
    assert_eq!(session.poll_next(false), ServerStep::Cancelled);
    assert!(session.is_finished());
    assert_eq!(session.remaining(), 0);
    assert_eq!(session.poll_next(true), ServerStep::Cancelled);
    assert_eq!(session.drain(), Vec::<Pong>::new());
}

#[test]
fn server_session_done_stays_done_with_a_closed_sink() {
    let mut session = ServerStream::new(Ping { number: 1 });
    assert_eq!(
        session.poll_next(true),
        ServerStep::Emit { pong: Pong { number: 1 }, pause_ms: 50 }
    );
    assert_eq!(session.poll_next(false), ServerStep::Done);
    assert_eq!(session.poll_next(true), ServerStep::Done);
}

#[test]
fn server_session_of_zero_is_done_at_once() {
    let mut session = ServerStream::new(Ping { number: 0 });
    assert!(session.is_finished());
    assert_eq!(session.poll_next(true), ServerStep::Done);
}

#[test]
fn server_session_cancel_stops_production() {
    let mut session = ServerStream::new(Ping { number: 3 });
    session.cancel();
    assert!(session.is_finished());
    assert_eq!(session.remaining(), 0);
    assert_eq!(session.poll_next(true), ServerStep::Cancelled);
}

#[test]
fn server_session_drain_returns_what_is_still_owed() {
    let mut session = ServerStream::new(Ping { number: 6 });
    assert_eq!(
        session.poll_next(true),
        ServerStep::Emit { pong: Pong { number: 6 }, pause_ms: 50 }
    );
    assert_eq!(session.drain(), vec![Pong { number: 6 }; 5]);
    assert!(session.is_finished());
    assert_eq!(session.poll_next(true), ServerStep::Done);
}
