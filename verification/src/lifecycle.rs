//! The singleton lifecycle strategy: exactly one logical protocol connection
//! at a time, a bounded queue that serializes callers onto it, and transparent
//! re-establishment after a failure.
//!
//! The strategy is a state machine from (state, event) to (state, action).
//! The surrounding runtime performs each action — starting an establishment,
//! forwarding a request onto the live connection, failing callers — and hands
//! the resulting event back in.

use vstd::prelude::*;
use crate::GrpcError;

verus! {

/// The lifecycle of the single connection slot. While an establishment
/// attempt is in flight, the identifiers of every request waiting on it are
/// held in enqueue order.
pub enum SingletonState {
    /// No connection and no attempt in flight; the first request starts one.
    Disconnected,
    /// An establishment attempt is in flight; `queued` holds the waiting
    /// requests in enqueue order, the one that triggered the attempt first.
    Connecting { queued: Vec<u64> },
    /// A live protocol connection accepts requests directly.
    Connected,
}

/// What the runtime reports to the state machine.
pub enum SingletonEvent {
    /// A caller issued the request with this identifier.
    Request { id: u64 },
    /// The in-flight establishment attempt produced a live connection.
    EstablishSucceeded,
    /// The in-flight establishment attempt failed.
    EstablishFailed,
    /// The background driver observed that the live connection terminated.
    ConnectionClosed,
}

/// What the runtime must do after a step.
pub enum SingletonAction {
    /// Begin exactly one establishment attempt; the request waits on it.
    StartEstablish { id: u64 },
    /// The request joined the queue of the attempt already in flight.
    Enqueue { id: u64 },
    /// The queue is at capacity: fail this caller with a capacity error
    /// instead of letting the queue grow.
    RejectCapacity { id: u64 },
    /// Send the request on the live connection.
    Forward { id: u64 },
    /// The new connection is up: dispatch every queued request onto it, in
    /// the order given.
    FlushQueued { ids: Vec<u64> },
    /// The attempt failed: fail every queued request with the establishment
    /// error. No queued request is dropped silently.
    FailQueued { ids: Vec<u64> },
    /// Nothing to do.
    Ignore,
}

/// The error an action makes its caller observe, following the propagation
/// policy: a rejected enqueue fails that one caller with the capacity
/// error; a failed establishment fails every queued caller with the
/// establishment error; every other action surfaces no error.
pub open spec fn spec_caller_error(a: ActionView) -> Option<GrpcError> {
    match a {
        ActionView::RejectCapacity { .. } => Some(GrpcError::CapacityExceeded),
        ActionView::FailQueued { .. } => Some(GrpcError::Establishment),
        _ => None,
    }
}

impl SingletonAction {
    /// The error the affected caller observes for this action, if any.
    pub fn caller_error(&self) -> (r: Option<GrpcError>)
        ensures
            r == spec_caller_error(self@),
    {
        match self {
            SingletonAction::RejectCapacity { .. } => Some(GrpcError::CapacityExceeded),
            SingletonAction::FailQueued { .. } => Some(GrpcError::Establishment),
            _ => None,
        }
    }
}

/// The mathematical value of a [`SingletonState`].
#[verifier::ext_equal]
pub ghost enum StateView {
    Disconnected,
    Connecting { queued: Seq<u64> },
    Connected,
}

/// The mathematical value of a [`SingletonAction`].
#[verifier::ext_equal]
pub ghost enum ActionView {
    StartEstablish { id: u64 },
    Enqueue { id: u64 },
    RejectCapacity { id: u64 },
    Forward { id: u64 },
    FlushQueued { ids: Seq<u64> },
    FailQueued { ids: Seq<u64> },
    Ignore,
}

impl View for SingletonState {
    type V = StateView;

    open spec fn view(&self) -> StateView {
        match self {
            SingletonState::Disconnected => StateView::Disconnected,
            SingletonState::Connecting { queued } => StateView::Connecting { queued: queued@ },
            SingletonState::Connected => StateView::Connected,
        }
    }
}

impl View for SingletonAction {
    type V = ActionView;

    open spec fn view(&self) -> ActionView {
        match self {
            SingletonAction::StartEstablish { id } => ActionView::StartEstablish { id: *id },
            SingletonAction::Enqueue { id } => ActionView::Enqueue { id: *id },
            SingletonAction::RejectCapacity { id } => ActionView::RejectCapacity { id: *id },
            SingletonAction::Forward { id } => ActionView::Forward { id: *id },
            SingletonAction::FlushQueued { ids } => ActionView::FlushQueued { ids: ids@ },
            SingletonAction::FailQueued { ids } => ActionView::FailQueued { ids: ids@ },
            SingletonAction::Ignore => ActionView::Ignore,
        }
    }
}

/// One transition of the lifecycle, with queue bound `capacity`.
pub open spec fn spec_step(capacity: nat, s: StateView, e: SingletonEvent) -> (StateView, ActionView) {
    match (s, e) {
        (StateView::Disconnected, SingletonEvent::Request { id }) => (
            StateView::Connecting { queued: seq![id] },
            ActionView::StartEstablish { id },
        ),
        (StateView::Connecting { queued }, SingletonEvent::Request { id }) => {
            if queued.len() < capacity {
                (
                    StateView::Connecting { queued: queued.push(id) },
                    ActionView::Enqueue { id },
                )
            } else {
                (StateView::Connecting { queued }, ActionView::RejectCapacity { id })
            }
        },
        (StateView::Connecting { queued }, SingletonEvent::EstablishSucceeded) => (
            StateView::Connected,
            ActionView::FlushQueued { ids: queued },
        ),
        (StateView::Connecting { queued }, SingletonEvent::EstablishFailed) => (
            StateView::Disconnected,
            ActionView::FailQueued { ids: queued },
        ),
        (StateView::Connected, SingletonEvent::Request { id }) => (
            StateView::Connected,
            ActionView::Forward { id },
        ),
        (StateView::Connected, SingletonEvent::ConnectionClosed) => (
            StateView::Disconnected,
            ActionView::Ignore,
        ),
        _ => (s, ActionView::Ignore),
    }
}

/// The singleton strategy's state: a fixed queue bound chosen at
/// construction and the connection slot's current lifecycle state.
pub struct SingletonLifecycle {
    pub capacity: usize,
    pub state: SingletonState,
}

impl SingletonLifecycle {
    /// The structural invariant: the bound is positive and the queue never
    /// exceeds it. While connecting, at least the request that triggered the
    /// attempt is waiting.
    pub open spec fn wf(self) -> bool {
        &&& self.capacity >= 1
        &&& match self.state@ {
            StateView::Connecting { queued } => 1 <= queued.len() <= self.capacity,
            _ => true,
        }
    }

    /// A fresh lifecycle: disconnected, with the given queue bound.
    pub fn new(capacity: usize) -> (r: Self)
        requires
            capacity >= 1,
        ensures
            r.wf(),
            r.capacity == capacity,
            r.state@ is Disconnected,
    {
        SingletonLifecycle { capacity, state: SingletonState::Disconnected }
    }

    /// Advance the state machine by one event and return the action the
    /// runtime must perform. The transition is exactly [`spec_step`].
    pub fn step(&mut self, event: SingletonEvent) -> (action: SingletonAction)
        requires
            old(self).wf(),
        ensures
            final(self).wf(),
            final(self).capacity == old(self).capacity,
            (final(self).state@, action@) == spec_step(
                old(self).capacity as nat,
                old(self).state@,
                event,
            ),
    {
        let mut state = SingletonState::Disconnected;
        core::mem::swap(&mut state, &mut self.state);
        match (state, event) {
            (SingletonState::Disconnected, SingletonEvent::Request { id }) => {
                let mut queued: Vec<u64> = Vec::new();
                queued.push(id);
                proof {
                    assert(queued@ =~= seq![id]);
                }
                self.state = SingletonState::Connecting { queued };
                SingletonAction::StartEstablish { id }
            },
            (SingletonState::Connecting { mut queued }, SingletonEvent::Request { id }) => {
                if queued.len() < self.capacity {
                    queued.push(id);
                    self.state = SingletonState::Connecting { queued };
                    SingletonAction::Enqueue { id }
                } else {
                    self.state = SingletonState::Connecting { queued };
                    SingletonAction::RejectCapacity { id }
                }
            },
            (SingletonState::Connecting { queued }, SingletonEvent::EstablishSucceeded) => {
                self.state = SingletonState::Connected;
                SingletonAction::FlushQueued { ids: queued }
            },
            (SingletonState::Connecting { queued }, SingletonEvent::EstablishFailed) => {
                self.state = SingletonState::Disconnected;
                SingletonAction::FailQueued { ids: queued }
            },
            (SingletonState::Connected, SingletonEvent::Request { id }) => {
                self.state = SingletonState::Connected;
                SingletonAction::Forward { id }
            },
            (SingletonState::Connected, SingletonEvent::ConnectionClosed) => {
                self.state = SingletonState::Disconnected;
                SingletonAction::Ignore
            },
            (state, _) => {
                self.state = state;
                SingletonAction::Ignore
            },
        }
    }
}

/// After a live connection terminates, the next request triggers exactly one
/// new establishment attempt: that request starts it, and any further request
/// arriving while the attempt is in flight joins its queue or is rejected —
/// it never starts a second attempt.
pub proof fn lemma_reconnect_single_attempt(capacity: nat, id: u64, other: u64)
    requires
        capacity >= 1,
    ensures
        ({
            let (after_close, on_close) = spec_step(
                capacity,
                StateView::Connected,
                SingletonEvent::ConnectionClosed,
            );
            let (after_first, on_first) = spec_step(
                capacity,
                after_close,
                SingletonEvent::Request { id },
            );
            let (_, on_second) = spec_step(
                capacity,
                after_first,
                SingletonEvent::Request { id: other },
            );
            &&& after_close == StateView::Disconnected
            &&& on_close == ActionView::Ignore
            &&& on_first == (ActionView::StartEstablish { id })
            &&& after_first == (StateView::Connecting { queued: seq![id] })
            &&& !(on_second is StartEstablish)
        }),
{
}

/// Every request queued while an establishment attempt is in flight observes
/// one consistent outcome: if the attempt succeeds, all of them are
/// dispatched onto the new connection; if it fails, all of them fail with
/// the establishment error. In both cases the action carries the whole queue
/// in enqueue order — no queued request is dropped silently.
pub proof fn lemma_queued_requests_share_outcome(capacity: nat, queued: Seq<u64>)
    ensures
        spec_step(
            capacity,
            StateView::Connecting { queued },
            SingletonEvent::EstablishSucceeded,
        ) == ((StateView::Connected, ActionView::FlushQueued { ids: queued })),
        spec_step(
            capacity,
            StateView::Connecting { queued },
            SingletonEvent::EstablishFailed,
        ) == ((StateView::Disconnected, ActionView::FailQueued { ids: queued })),
{
}

/// Backpressure: a request arriving while the queue holds `capacity` entries
/// is failed with the capacity error and nothing else changes — the queue
/// never grows beyond its bound.
pub proof fn lemma_capacity_rejects_excess(capacity: nat, queued: Seq<u64>, id: u64)
    requires
        queued.len() >= capacity,
    ensures
        spec_step(capacity, StateView::Connecting { queued }, SingletonEvent::Request { id })
            == ((StateView::Connecting { queued }, ActionView::RejectCapacity { id })),
{
}

/// While the queue has room, an arriving request is appended behind every
/// earlier one: the queue dispatched on success is in enqueue order.
pub proof fn lemma_enqueue_preserves_order(capacity: nat, queued: Seq<u64>, id: u64)
    requires
        queued.len() < capacity,
    ensures
        spec_step(capacity, StateView::Connecting { queued }, SingletonEvent::Request { id })
            == ((StateView::Connecting { queued: queued.push(id) }, ActionView::Enqueue { id })),
{
}

} // verus!
