//! Transport and connection-lifecycle layer underneath an RPC client.
//!
//! The crate models the decision logic of a gRPC channel: which transport a
//! connector opens, how outbound request URIs are normalized for transports
//! without network addressing, how the singleton lifecycle strategy queues
//! and dispatches requests around a single reconnectable connection, and how
//! optional timeouts classify slow operations.

use vstd::prelude::*;

pub mod channel;
pub mod connector;
pub mod lifecycle;
pub mod stream;
pub mod util;

pub use channel::GrpcChannel;
pub use connector::GrpcConnector;

verus! {

/// The kinds of failure a channel surfaces to its caller.
#[derive(Clone, Copy, Debug, PartialEq, Eq, Structural)]
pub enum GrpcError {
    /// The underlying socket or factory could not produce a stream.
    Establishment,
    /// The stream opened but the protocol-level handshake did not complete.
    Handshake,
    /// An established connection errored during a send or receive.
    InFlightIo,
    /// An operation did not complete within its configured bound.
    Timeout,
    /// The singleton strategy's bounded queue is full.
    CapacityExceeded,
}

} // verus!
