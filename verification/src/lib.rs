//! The decisions of a guest agent that serves RPC calls over a VSOCK
//! listener, as verified code over plain values.
//!
//! - [`message`], [`error`]: the decoded messages and the failure taxonomy.
//! - [`handlers`]: the four call handlers, from a call's whole input to its
//!   whole output.
//! - [`client_stream`], [`server_stream`], [`duplex`]: the sessions behind
//!   the streaming handlers, one event at a time, for a driver that awaits
//!   and sleeps between the steps.
//! - [`product`]: the aggregate of a client stream and what holds of it.
//! - [`dispatch`]: which call shapes have a handler.
//! - [`transport`], [`connection`]: the listener as a sequence of
//!   connections, and the life of one connection's byte stream.
//! - [`http`]: the one route of the HTTP agent.
//!
//! Nothing here reads a socket, awaits or sleeps. A session or an adapter
//! is told what happened and answers what to do next; every session is a
//! value of its own and shares nothing with another.

pub mod message;
pub mod error;
pub mod product;
pub mod client_stream;
pub mod server_stream;
pub mod duplex;
pub mod handlers;
pub mod dispatch;
pub mod connection;
pub mod transport;
pub mod http;
