use guest_agent::client_stream::{ClientStep, ClientStream};
use guest_agent::duplex::{DrainStep, DuplexStream, EmitStep};
use guest_agent::error::AgentError;
use guest_agent::handlers::App;
use guest_agent::message::{Inbound, Ping, Pong};
use guest_agent::server_stream::{ServerStep, ServerStream};

fn pings(numbers: &[u32]) -> Vec<Ping> {
    numbers.iter().map(|&number| Ping { number }).collect()
}

#[test]
fn two_calls_of_different_shapes_do_not_mix() {
    let numbers_a = [2u32, 0, 9, 4];
    let numbers_b = [7u32, 7, 0, 1, 3];
    let mut product = ClientStream::new();
    let mut echo = DuplexStream::new();
    let mut echoed = Vec::new();
    for step in 0..numbers_a.len().max(numbers_b.len()) {
        if let Some(&number) = numbers_a.get(step) {
            assert_eq!(
                product.on_inbound(Inbound::Message(Ping { number })),
                ClientStep::Continue
            );
        }
        if let Some(&number) = numbers_b.get(step) {
            assert_eq!(echo.on_inbound(Inbound::Message(Ping { number })), DrainStep::Continue);
            match echo.poll_outbound(true) {
                EmitStep::Emit(pong) => echoed.push(pong),
                other => panic!("expected a response, not {:?}", other),
            }
        }
    }
    let alone_a = App.client_streaming(&pings(&numbers_a));
    let alone_b = App.duplex_streaming(&pings(&numbers_b));
    assert_eq!(product.on_inbound(Inbound::End), ClientStep::Reply(Pong { number: 72 }));
    assert_eq!(alone_a, Ok(Pong { number: 72 }));
    assert_eq!(echoed, alone_b);
}

#[test]
fn two_calls_of_one_shape_do_not_mix() {
    let mut first = ServerStream::new(Ping { number: 2 });
    let mut second = ServerStream::new(Ping { number: 3 });
    let mut from_first = Vec::new();
    let mut from_second = Vec::new();
    loop {
        let a = first.poll_next(true);
        let b = second.poll_next(true);
        if let ServerStep::Emit { pong, .. } = a {
            from_first.push(pong);
        }
        if let ServerStep::Emit { pong, .. } = b {
            from_second.push(pong);
        }
        if a == ServerStep::Done && b == ServerStep::Done {
            break;
        }
    }
    assert_eq!(from_first, App.server_streaming(Ping { number: 2 }));
    assert_eq!(from_second, App.server_streaming(Ping { number: 3 }));
}

#[test]
fn a_dropped_call_leaves_its_sibling_alone() {
    let mut dropped = DuplexStream::new();
    let mut sibling = DuplexStream::new();
    assert_eq!(dropped.on_inbound(Inbound::Message(Ping { number: 1 })), DrainStep::Continue);
    assert_eq!(sibling.on_inbound(Inbound::Message(Ping { number: 2 })), DrainStep::Continue);
    assert_eq!(dropped.on_inbound(Inbound::Failed), DrainStep::Stop);
    assert_eq!(dropped.on_inbound(Inbound::Message(Ping { number: 3 })), DrainStep::Closed);
    assert!(!sibling.is_finished());
    assert_eq!(sibling.poll_outbound(true), EmitStep::Emit(Pong { number: 2 }));
    assert_eq!(sibling.on_inbound(Inbound::End), DrainStep::Stop);
    assert_eq!(sibling.poll_outbound(true), EmitStep::End);
    assert_eq!(dropped.poll_outbound(true), EmitStep::Emit(Pong { number: 1 }));
    assert!(dropped.is_finished());
    assert_eq!(dropped.poll_outbound(true), EmitStep::Fail(AgentError::TransportIoFailure));
}

#[test]
fn a_dropped_connection_ends_every_shape_in_one_turn() {
    let mut client = ClientStream::new();
    assert_eq!(
        client.on_inbound(Inbound::Failed),
        ClientStep::Fail(AgentError::TransportIoFailure)
    );
    assert!(client.is_finished());

    let mut server = ServerStream::new(Ping { number: 9 });
    assert_eq!(server.poll_next(false), ServerStep::Cancelled);
    assert!(server.is_finished());

    let mut duplex = DuplexStream::new();
    assert_eq!(duplex.poll_outbound(false), EmitStep::Aborted);
    assert!(duplex.is_finished());

    let mut unread = DuplexStream::new();
    assert_eq!(unread.on_inbound(Inbound::Failed), DrainStep::Stop);
    assert!(unread.is_finished());
    assert_eq!(unread.poll_outbound(true), EmitStep::Fail(AgentError::TransportIoFailure));
}

#[test]
fn handlers_are_functions_of_their_input() {
    let inbound = pings(&[3, 0, 5]);
    assert_eq!(App.unary(Ping { number: 12 }), App.unary(Ping { number: 12 }));
    assert_eq!(App.client_streaming(&inbound), App.client_streaming(&inbound));
    assert_eq!(
        App.server_streaming(Ping { number: 3 }),
        App.server_streaming(Ping { number: 3 })
    );
    assert_eq!(App.duplex_streaming(&inbound), App.duplex_streaming(&inbound));
}
