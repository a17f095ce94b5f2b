use netshare::lifecycle::{InstanceAction, InstanceEvent, InstanceState};
use netshare::server_host::StartError;

const STATES: [InstanceState; 5] = [
    InstanceState::Created,
    InstanceState::Binding,
    InstanceState::Serving,
    InstanceState::Draining,
    InstanceState::Stopped,
];

const EVENTS: [InstanceEvent; 6] = [
    InstanceEvent::Launch,
    InstanceEvent::Bound,
    InstanceEvent::BindFailed,
    InstanceEvent::ShutdownSignal,
    InstanceEvent::Drained,
    InstanceEvent::Failed,
];

fn rank(state: InstanceState) -> u8 {
    match state {
        InstanceState::Created => 0,
        InstanceState::Binding => 1,
        InstanceState::Serving => 2,
        InstanceState::Draining => 3,
        InstanceState::Stopped => 4,
    }
}

#[test]
fn a_task_begins_as_created() {
    assert_eq!(InstanceState::new(), InstanceState::Created);
    assert!(!InstanceState::new().is_stopped());
}

#[test]
fn a_served_life_from_launch_to_stop() {
    let state = InstanceState::new();
    let (state, action) = state.on_event(InstanceEvent::Launch);
    assert_eq!((state, action), (InstanceState::Binding, InstanceAction::Bind));
    let (state, action) = state.on_event(InstanceEvent::Bound);
    assert_eq!((state, action), (InstanceState::Serving, InstanceAction::Register));
    let (state, action) = state.on_event(InstanceEvent::ShutdownSignal);
    assert_eq!((state, action), (InstanceState::Draining, InstanceAction::Drain));
    let (state, action) = state.on_event(InstanceEvent::Drained);
    assert_eq!((state, action), (InstanceState::Stopped, InstanceAction::Unregister));
    assert!(state.is_stopped());
}

#[test]
fn a_failed_bind_ends_the_task_with_an_error() {
    let (state, _) = InstanceState::new().on_event(InstanceEvent::Launch);
    let (state, action) = state.on_event(InstanceEvent::BindFailed);
    assert_eq!(state, InstanceState::Stopped);
    assert_eq!(action, InstanceAction::Abort(StartError::BindFailed));
}

#[test]
fn a_failure_while_registered_asks_to_unregister() {
    assert_eq!(
        InstanceState::Serving.on_event(InstanceEvent::Failed),
        (InstanceState::Stopped, InstanceAction::Unregister)
    );
    assert_eq!(
        InstanceState::Draining.on_event(InstanceEvent::Failed),
        (InstanceState::Stopped, InstanceAction::Unregister)
    );
}

#[test]
fn a_failure_before_registration_just_ends_the_task() {
    assert_eq!(
        InstanceState::Created.on_event(InstanceEvent::Failed),
        (InstanceState::Stopped, InstanceAction::Finish)
    );
    assert_eq!(
        InstanceState::Binding.on_event(InstanceEvent::Failed),
        (InstanceState::Stopped, InstanceAction::Finish)
    );
}

#[test]
fn a_stopped_task_ignores_everything() {
    for event in EVENTS {
        assert_eq!(
            InstanceState::Stopped.on_event(event),
            (InstanceState::Stopped, InstanceAction::Ignore)
        );
    }
}

#[test]
fn events_out_of_place_change_nothing() {
    let out_of_place = [
        (InstanceState::Created, InstanceEvent::Bound),
        (InstanceState::Created, InstanceEvent::BindFailed),
        (InstanceState::Created, InstanceEvent::ShutdownSignal),
        (InstanceState::Created, InstanceEvent::Drained),
        (InstanceState::Binding, InstanceEvent::Launch),
        (InstanceState::Binding, InstanceEvent::ShutdownSignal),
        (InstanceState::Binding, InstanceEvent::Drained),
        (InstanceState::Serving, InstanceEvent::Launch),
        (InstanceState::Serving, InstanceEvent::Bound),
        (InstanceState::Serving, InstanceEvent::BindFailed),
        (InstanceState::Serving, InstanceEvent::Drained),
        (InstanceState::Draining, InstanceEvent::Launch),
        (InstanceState::Draining, InstanceEvent::Bound),
        (InstanceState::Draining, InstanceEvent::BindFailed),
        (InstanceState::Draining, InstanceEvent::ShutdownSignal),
    ];
    for (state, event) in out_of_place {
        assert_eq!(state.on_event(event), (state, InstanceAction::Ignore));
    }
}

#[test]
fn no_step_goes_back() {
    for state in STATES {
        for event in EVENTS {
            let (next, _) = state.on_event(event);
            assert!(rank(state) <= rank(next));
        }
    }
}

#[test]
fn register_is_asked_only_between_binding_and_serving() {
    for state in STATES {
        for event in EVENTS {
            let (next, action) = state.on_event(event);
            let registers = action == InstanceAction::Register;
            assert_eq!(
                registers,
                state == InstanceState::Binding && next == InstanceState::Serving
            );
        }
    }
}

#[test]
fn unregister_is_asked_exactly_when_a_registered_task_stops() {
    for state in STATES {
        for event in EVENTS {
            let (next, action) = state.on_event(event);
            let was_registered = state == InstanceState::Serving || state == InstanceState::Draining;
            let stops = next == InstanceState::Stopped;
            assert_eq!(action == InstanceAction::Unregister, was_registered && stops);
        }
    }
}

#[test]
fn only_a_stopped_task_is_stopped() {
    for state in STATES {
        assert_eq!(state.is_stopped(), state == InstanceState::Stopped);
    }
}
