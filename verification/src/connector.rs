//! The connector: an asynchronous factory that establishes one transport
//! stream per call. This module holds its decision logic: which transport is
//! opened, against which target, and whether a readiness probe must precede
//! the call. The I/O that carries a plan out lives outside the library.

use vstd::prelude::*;

verus! {

/// Where a connector opens its streams: a Unix-domain socket path captured at
/// construction time, or a caller-supplied stream factory.
#[derive(Clone)]
pub enum GrpcConnector {
    Unix { socket_path: String },
    Custom,
}

/// The single transport action one `establish` call performs.
#[derive(Clone, Debug)]
pub enum EstablishPlan {
    /// Open a fresh socket connection to the stored path.
    OpenUnixSocket { socket_path: String },
    /// Invoke the caller-supplied factory once.
    InvokeCustomFactory,
}

/// The plan a connector follows on every `establish` call. It is a function
/// of the connector alone: the request target handed to `establish` never
/// enters it.
pub open spec fn plan_of(connector: GrpcConnector) -> EstablishPlan {
    match connector {
        GrpcConnector::Unix { socket_path } => EstablishPlan::OpenUnixSocket { socket_path },
        GrpcConnector::Custom => EstablishPlan::InvokeCustomFactory,
    }
}

impl GrpcConnector {
    /// A connector that opens a new Unix-domain socket connection to
    /// `socket_path` on every `establish` call.
    pub fn unix(socket_path: String) -> (r: Self)
        ensures
            r == (GrpcConnector::Unix { socket_path }),
    {
        GrpcConnector::Unix { socket_path }
    }

    /// A connector that delegates every `establish` call to a
    /// caller-supplied stream factory.
    pub fn custom() -> (r: Self)
        ensures
            r == GrpcConnector::Custom,
    {
        GrpcConnector::Custom
    }

    /// Whether a readiness probe of the underlying factory must precede each
    /// `establish` call. A Unix-domain connector is always ready; a custom
    /// factory has a bounded-concurrency contract and must be probed first.
    pub fn requires_readiness_probe(&self) -> (r: bool)
        ensures
            r == (*self is Custom),
    {
        match self {
            GrpcConnector::Unix { .. } => false,
            GrpcConnector::Custom => true,
        }
    }

    /// The transport action for one `establish` call. The URI argument that
    /// the protocol layer supplies is ignored, as the contract states: the
    /// target was captured when the connector was constructed, and each call
    /// opens one fresh physical connection.
    pub fn establish_plan(&self, _uri: &crate::util::RequestUri) -> (r: EstablishPlan)
        ensures
            r == plan_of(*self),
    {
        match self {
            GrpcConnector::Unix { socket_path } => EstablishPlan::OpenUnixSocket {
                socket_path: socket_path.clone(),
            },
            GrpcConnector::Custom => EstablishPlan::InvokeCustomFactory,
        }
    }
}

} // verus!
