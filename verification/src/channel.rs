//! The channel: the caller-facing handle for issuing requests to one logical
//! endpoint. A channel owns a connector, one of two connection-lifecycle
//! strategies, and two optional timeout bounds that decorate establishment
//! and whole requests.

use vstd::prelude::*;
use crate::GrpcError;
use crate::connector::GrpcConnector;
use crate::lifecycle::{SingletonAction, SingletonEvent, SingletonLifecycle, spec_step};

verus! {

/// Options for the pooled strategy. The pool opens connections lazily,
/// reuses live ones and replaces closed ones on its own; this design imposes
/// no further knobs on it.
pub struct GrpcConnectionPoolOptions {}

/// The queue bound the singleton strategy uses when the caller does not pick
/// one.
pub const DEFAULT_SINGLETON_QUEUE_CAPACITY: usize = 1024;

/// Which connection-lifecycle strategy a channel runs.
pub enum LifecycleStrategy {
    /// Many independently multiplexed connections, opened and reused on
    /// demand by the pool below this layer.
    Pooled,
    /// Exactly one connection at a time, serialized through a bounded queue
    /// and re-established transparently after a failure.
    Singleton(SingletonLifecycle),
}

/// Whether a wait of `elapsed_ms` milliseconds has exhausted an optional
/// bound. An absent bound never expires.
pub open spec fn spec_deadline_expired(timeout_ms: Option<u64>, elapsed_ms: u64) -> bool {
    timeout_ms matches Some(t) && elapsed_ms >= t
}

/// The timeout decorator's decision while one operation is awaited:
/// `completed` says whether the operation finished before the deadline was
/// inspected. Expiry yields the timeout error and abandons only the wait;
/// the operation itself may still finish later, with its result discarded.
pub open spec fn spec_timeout_verdict(
    timeout_ms: Option<u64>,
    elapsed_ms: u64,
    completed: bool,
) -> Option<GrpcError> {
    if !completed && spec_deadline_expired(timeout_ms, elapsed_ms) {
        Some(GrpcError::Timeout)
    } else {
        None
    }
}

/// A channel handle: the connector that opens transports, the lifecycle
/// strategy, and the two optional timeout bounds.
pub struct GrpcChannel {
    pub connector: GrpcConnector,
    pub strategy: LifecycleStrategy,
    pub connect_timeout_ms: Option<u64>,
    pub request_timeout_ms: Option<u64>,
}

impl GrpcChannel {
    /// A channel is well formed when its singleton lifecycle, if it has one,
    /// is.
    pub open spec fn wf(self) -> bool {
        match self.strategy {
            LifecycleStrategy::Pooled => true,
            LifecycleStrategy::Singleton(lifecycle) => lifecycle.wf(),
        }
    }

    /// A channel over the pooled strategy: connections are opened lazily,
    /// reused while live, and replaced when they close. No timeout is set
    /// until the caller asks for one.
    pub fn pooled(connector: GrpcConnector) -> (r: Self)
        ensures
            r.wf(),
            r.connector == connector,
            r.strategy is Pooled,
            r.connect_timeout_ms is None,
            r.request_timeout_ms is None,
    {
        GrpcChannel {
            connector,
            strategy: LifecycleStrategy::Pooled,
            connect_timeout_ms: None,
            request_timeout_ms: None,
        }
    }

    /// A channel over the singleton strategy with the default queue bound:
    /// one connection at a time, starting disconnected.
    pub fn singleton(connector: GrpcConnector) -> (r: Self)
        ensures
            r.wf(),
            r.connector == connector,
            r.strategy matches LifecycleStrategy::Singleton(lifecycle)
                && lifecycle.capacity == DEFAULT_SINGLETON_QUEUE_CAPACITY
                && lifecycle.state@ is Disconnected,
            r.connect_timeout_ms is None,
            r.request_timeout_ms is None,
    {
        Self::singleton_with_capacity(connector, DEFAULT_SINGLETON_QUEUE_CAPACITY)
    }

    /// A singleton channel whose bounded queue admits at most `capacity`
    /// waiting requests while a connection is being established.
    pub fn singleton_with_capacity(connector: GrpcConnector, capacity: usize) -> (r: Self)
        requires
            capacity >= 1,
        ensures
            r.wf(),
            r.connector == connector,
            r.strategy matches LifecycleStrategy::Singleton(lifecycle)
                && lifecycle.capacity == capacity
                && lifecycle.state@ is Disconnected,
            r.connect_timeout_ms is None,
            r.request_timeout_ms is None,
    {
        GrpcChannel {
            connector,
            strategy: LifecycleStrategy::Singleton(SingletonLifecycle::new(capacity)),
            connect_timeout_ms: None,
            request_timeout_ms: None,
        }
    }

    /// Bound every connection-establishment attempt by `timeout_ms`
    /// milliseconds. Nothing else about the channel changes.
    pub fn with_connect_timeout(self, timeout_ms: u64) -> (r: Self)
        ensures
            r.connect_timeout_ms == Some(timeout_ms),
            r.request_timeout_ms == self.request_timeout_ms,
            r.connector == self.connector,
            r.strategy == self.strategy,
    {
        GrpcChannel { connect_timeout_ms: Some(timeout_ms), ..self }
    }

    /// Bound every whole request (send and receive) by `timeout_ms`
    /// milliseconds. Nothing else about the channel changes.
    pub fn with_request_timeout(self, timeout_ms: u64) -> (r: Self)
        ensures
            r.request_timeout_ms == Some(timeout_ms),
            r.connect_timeout_ms == self.connect_timeout_ms,
            r.connector == self.connector,
            r.strategy == self.strategy,
    {
        GrpcChannel { request_timeout_ms: Some(timeout_ms), ..self }
    }

    /// The establishment-timeout decorator's decision after waiting
    /// `elapsed_ms` on an attempt that has or has not completed.
    pub fn establish_verdict(&self, elapsed_ms: u64, completed: bool) -> (r: Option<GrpcError>)
        ensures
            r == spec_timeout_verdict(self.connect_timeout_ms, elapsed_ms, completed),
    {
        deadline_verdict(&self.connect_timeout_ms, elapsed_ms, completed)
    }

    /// The per-request-timeout decorator's decision after waiting
    /// `elapsed_ms` on a request that has or has not completed.
    pub fn request_verdict(&self, elapsed_ms: u64, completed: bool) -> (r: Option<GrpcError>)
        ensures
            r == spec_timeout_verdict(self.request_timeout_ms, elapsed_ms, completed),
    {
        deadline_verdict(&self.request_timeout_ms, elapsed_ms, completed)
    }

    /// Advance a singleton channel's lifecycle by one event; the returned
    /// action is what the runtime must perform. The pooled strategy keeps no
    /// lifecycle state here, so this applies to singleton channels only.
    pub fn handle_singleton_event(&mut self, event: SingletonEvent) -> (action: SingletonAction)
        requires
            old(self).wf(),
            old(self).strategy is Singleton,
        ensures
            final(self).wf(),
            final(self).connector == old(self).connector,
            final(self).connect_timeout_ms == old(self).connect_timeout_ms,
            final(self).request_timeout_ms == old(self).request_timeout_ms,
            final(self).strategy matches LifecycleStrategy::Singleton(after)
                && old(self).strategy matches LifecycleStrategy::Singleton(before)
                && after.capacity == before.capacity
                && (after.state@, action@) == spec_step(before.capacity as nat, before.state@, event),
    {
        match &mut self.strategy {
            LifecycleStrategy::Singleton(lifecycle) => lifecycle.step(event),
            LifecycleStrategy::Pooled => SingletonAction::Ignore,
        }
    }
}

/// Shared body of the two timeout decorators.
fn deadline_verdict(timeout_ms: &Option<u64>, elapsed_ms: u64, completed: bool) -> (r: Option<
    GrpcError,
>)
    ensures
        r == spec_timeout_verdict(*timeout_ms, elapsed_ms, completed),
{
    if completed {
        None
    } else {
        match timeout_ms {
            Some(t) => if elapsed_ms >= *t {
                Some(GrpcError::Timeout)
            } else {
                None
            },
            None => None,
        }
    }
}

/// An establishment that never completes fails with the timeout error as
/// soon as the configured bound elapses: the caller waits no longer than the
/// bound before the verdict is the timeout error.
pub proof fn lemma_connect_timeout_bounds_wait(bound_ms: u64, elapsed_ms: u64)
    requires
        elapsed_ms >= bound_ms,
    ensures
        spec_timeout_verdict(Some(bound_ms), elapsed_ms, false) == Some(GrpcError::Timeout),
        forall|before: u64|
            before < bound_ms ==> spec_timeout_verdict(Some(bound_ms), before, false) is None,
{
}

} // verus!
