use guest_agent::error::AgentError;
use guest_agent::handlers::App;
use guest_agent::message::{Ping, Pong};

#[test]
fn unary_squares_the_number() {
    assert_eq!(App.unary(Ping { number: 7 }), Ok(Pong { number: 49 }));
}

#[test]
fn unary_of_zero_is_zero() {
    assert_eq!(App.unary(Ping { number: 0 }), Ok(Pong { number: 0 }));
}

#[test]
fn unary_largest_square_in_range() {
    assert_eq!(App.unary(Ping { number: 65535 }), Ok(Pong { number: 4294836225 }));
}

#[test]
fn unary_out_of_range_is_a_protocol_violation() {
    assert_eq!(App.unary(Ping { number: 65536 }), Err(AgentError::ProtocolViolation));
    assert_eq!(App.unary(Ping { number: u32::MAX }), Err(AgentError::ProtocolViolation));
}
