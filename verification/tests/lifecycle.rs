use grpc_channel::GrpcError;
use grpc_channel::lifecycle::{
    SingletonAction, SingletonEvent, SingletonLifecycle, SingletonState,
};

#[test]
fn first_request_starts_exactly_one_establishment() {
    let mut lc = SingletonLifecycle::new(4);
    assert!(matches!(lc.state, SingletonState::Disconnected));

    let action = lc.step(SingletonEvent::Request { id: 1 });
    assert!(matches!(action, SingletonAction::StartEstablish { id: 1 }));
    assert_eq!(action.caller_error(), None);

    // A second request while the attempt is in flight must not start another.
    let action = lc.step(SingletonEvent::Request { id: 2 });
    assert!(matches!(action, SingletonAction::Enqueue { id: 2 }));
}

#[test]
fn queued_requests_are_flushed_in_enqueue_order() {
    let mut lc = SingletonLifecycle::new(8);
    lc.step(SingletonEvent::Request { id: 10 });
    lc.step(SingletonEvent::Request { id: 11 });
    lc.step(SingletonEvent::Request { id: 12 });

    let action = lc.step(SingletonEvent::EstablishSucceeded);
    match action {
        SingletonAction::FlushQueued { ids } => assert_eq!(ids, vec![10, 11, 12]),
        _ => panic!("expected the queue to be flushed"),
    }
    assert!(matches!(lc.state, SingletonState::Connected));
}

#[test]
fn failed_establishment_fails_every_queued_request() {
    let mut lc = SingletonLifecycle::new(8);
    lc.step(SingletonEvent::Request { id: 1 });
    lc.step(SingletonEvent::Request { id: 2 });

    let action = lc.step(SingletonEvent::EstablishFailed);
    assert_eq!(action.caller_error(), Some(GrpcError::Establishment));
    match action {
        SingletonAction::FailQueued { ids } => assert_eq!(ids, vec![1, 2]),
        _ => panic!("expected every queued request to fail"),
    }
    assert!(matches!(lc.state, SingletonState::Disconnected));

    // The failure is not retried on its own: the next request triggers a
    // fresh attempt.
    let action = lc.step(SingletonEvent::Request { id: 3 });
    assert!(matches!(action, SingletonAction::StartEstablish { id: 3 }));
}

#[test]
fn excess_requests_fail_with_capacity_error() {
    let mut lc = SingletonLifecycle::new(2);
    lc.step(SingletonEvent::Request { id: 1 });
    lc.step(SingletonEvent::Request { id: 2 });

    let action = lc.step(SingletonEvent::Request { id: 3 });
    assert!(matches!(action, SingletonAction::RejectCapacity { id: 3 }));
    assert_eq!(action.caller_error(), Some(GrpcError::CapacityExceeded));

    // The rejected request left the queue untouched.
    let action = lc.step(SingletonEvent::EstablishSucceeded);
    match action {
        SingletonAction::FlushQueued { ids } => assert_eq!(ids, vec![1, 2]),
        _ => panic!("expected the queue to be flushed"),
    }
}

#[test]
fn terminated_connection_reconnects_on_next_request() {
    let mut lc = SingletonLifecycle::new(4);
    lc.step(SingletonEvent::Request { id: 1 });
    lc.step(SingletonEvent::EstablishSucceeded);

    let action = lc.step(SingletonEvent::Request { id: 2 });
    assert!(matches!(action, SingletonAction::Forward { id: 2 }));

    // The background driver reports the connection gone.
    let action = lc.step(SingletonEvent::ConnectionClosed);
    assert!(matches!(action, SingletonAction::Ignore));
    assert!(matches!(lc.state, SingletonState::Disconnected));

    // The next request triggers exactly one new attempt and succeeds once
    // the endpoint is reachable again.
    let action = lc.step(SingletonEvent::Request { id: 3 });
    assert!(matches!(action, SingletonAction::StartEstablish { id: 3 }));
    let action = lc.step(SingletonEvent::Request { id: 4 });
    assert!(matches!(action, SingletonAction::Enqueue { id: 4 }));
    let action = lc.step(SingletonEvent::EstablishSucceeded);
    match action {
        SingletonAction::FlushQueued { ids } => assert_eq!(ids, vec![3, 4]),
        _ => panic!("expected the queue to be flushed"),
    }
}

#[test]
fn stale_events_change_nothing() {
    let mut lc = SingletonLifecycle::new(4);
    let action = lc.step(SingletonEvent::EstablishSucceeded);
    assert!(matches!(action, SingletonAction::Ignore));
    assert!(matches!(lc.state, SingletonState::Disconnected));

    let action = lc.step(SingletonEvent::ConnectionClosed);
    assert!(matches!(action, SingletonAction::Ignore));
    assert!(matches!(lc.state, SingletonState::Disconnected));
}
