use crate::server_host::StartError;
use vstd::prelude::*;

verus! {

/// The phase that a serving task is in.
#[derive(Debug, Clone, Copy, PartialEq, Eq, Structural)]
pub enum InstanceState {
    /// The task exists; its socket is not bound yet.
    Created,
    /// The task is trying to bind its port.
    Binding,
    /// The socket is bound, the instance is registered and answers requests.
    Serving,
    /// A stop was asked for: no new connections, outstanding requests finish.
    Draining,
    /// The task has ended.
    Stopped,
}

/// What can happen to a serving task.
#[derive(Debug, Clone, Copy, PartialEq, Eq, Structural)]
pub enum InstanceEvent {
    /// The task was launched.
    Launch,
    /// The port was bound.
    Bound,
    /// The port could not be bound.
    BindFailed,
    /// The stop signal arrived.
    ShutdownSignal,
    /// The last outstanding request has finished.
    Drained,
    /// Something unexpected went wrong inside the task.
    Failed,
}

/// What a serving task has to do after an event.
#[derive(Debug, Clone, Copy, PartialEq, Eq)]
pub enum InstanceAction {
    /// Bind the port on all interfaces.
    Bind,
    /// Work out the endpoints, enter the instance into the registry and
    /// begin to answer requests.
    Register,
    /// Stop accepting connections and let outstanding requests finish.
    Drain,
    /// Take the instance out of the registry, if it is still there, and end.
    Unregister,
    /// End with an error; the registry was never touched.
    Abort(StartError),
    /// End; the registry was never touched.
    Finish,
    /// Nothing: the event does not apply in this phase.
    Ignore,
}

/// The phase that follows `state` on `event`, and what the task has to do.
/// An event that does not apply in a phase changes nothing.
pub open spec fn transition(state: InstanceState, event: InstanceEvent) -> (InstanceState, InstanceAction) {
    match (state, event) {
        (InstanceState::Created, InstanceEvent::Launch) => (InstanceState::Binding, InstanceAction::Bind),
        (InstanceState::Binding, InstanceEvent::Bound) => (InstanceState::Serving, InstanceAction::Register),
        (InstanceState::Binding, InstanceEvent::BindFailed) => (
            InstanceState::Stopped,
            InstanceAction::Abort(StartError::BindFailed),
        ),
        (InstanceState::Serving, InstanceEvent::ShutdownSignal) => (
            InstanceState::Draining,
            InstanceAction::Drain,
        ),
        (InstanceState::Draining, InstanceEvent::Drained) => (
            InstanceState::Stopped,
            InstanceAction::Unregister,
        ),
        (InstanceState::Serving, InstanceEvent::Failed) => (InstanceState::Stopped, InstanceAction::Unregister),
        (InstanceState::Draining, InstanceEvent::Failed) => (
            InstanceState::Stopped,
            InstanceAction::Unregister,
        ),
        (InstanceState::Created, InstanceEvent::Failed) => (InstanceState::Stopped, InstanceAction::Finish),
        (InstanceState::Binding, InstanceEvent::Failed) => (InstanceState::Stopped, InstanceAction::Finish),
        _ => (state, InstanceAction::Ignore),
    }
}

/// The phase reached from `state` after `events`, in their order.
pub open spec fn after(state: InstanceState, events: Seq<InstanceEvent>) -> InstanceState
    decreases events.len(),
{
    if events.len() == 0 {
        state
    } else {
        after(transition(state, events[0]).0, events.drop_first())
    }
}

/// How far along its life a task is.
pub open spec fn progress(state: InstanceState) -> nat {
    match state {
        InstanceState::Created => 0,
        InstanceState::Binding => 1,
        InstanceState::Serving => 2,
        InstanceState::Draining => 3,
        InstanceState::Stopped => 4,
    }
}

/// The instance has been entered into the registry by its task, and its
/// task has not asked for it to be taken out.
pub open spec fn holds_entry(state: InstanceState) -> bool {
    state is Serving || state is Draining
}

impl InstanceState {
    /// The phase in which every task begins.
    pub fn new() -> (state: InstanceState)
        ensures
            state == InstanceState::Created,
    {
        InstanceState::Created
    }

    /// Takes one step: the phase that follows on `event`, and what to do.
    pub fn on_event(self, event: InstanceEvent) -> (step: (InstanceState, InstanceAction))
        ensures
            step == transition(self, event),
    {
        match (self, event) {
            (InstanceState::Created, InstanceEvent::Launch) => (InstanceState::Binding, InstanceAction::Bind),
            (InstanceState::Binding, InstanceEvent::Bound) => (
                InstanceState::Serving,
                InstanceAction::Register,
            ),
            (InstanceState::Binding, InstanceEvent::BindFailed) => (
                InstanceState::Stopped,
                InstanceAction::Abort(StartError::BindFailed),
            ),
            (InstanceState::Serving, InstanceEvent::ShutdownSignal) => (
                InstanceState::Draining,
                InstanceAction::Drain,
            ),
            (InstanceState::Draining, InstanceEvent::Drained) => (
                InstanceState::Stopped,
                InstanceAction::Unregister,
            ),
            (InstanceState::Serving, InstanceEvent::Failed) => (
                InstanceState::Stopped,
                InstanceAction::Unregister,
            ),
            (InstanceState::Draining, InstanceEvent::Failed) => (
                InstanceState::Stopped,
                InstanceAction::Unregister,
            ),
            (InstanceState::Created, InstanceEvent::Failed) => (InstanceState::Stopped, InstanceAction::Finish),
            (InstanceState::Binding, InstanceEvent::Failed) => (InstanceState::Stopped, InstanceAction::Finish),
            (state, _) => (state, InstanceAction::Ignore),
        }
    }

    /// Whether the task has ended.
    pub fn is_stopped(&self) -> (stopped: bool)
        ensures
            stopped == (*self is Stopped),
    {
        match self {
            InstanceState::Stopped => true,
            _ => false,
        }
    }
}

/// A task never returns to an earlier phase, and once it has stopped no
/// event moves it or asks anything of it.
pub proof fn lemma_step_moves_forward(state: InstanceState, event: InstanceEvent)
    ensures
        progress(state) <= progress(transition(state, event).0),
        state is Stopped ==> transition(state, event) == (InstanceState::Stopped, InstanceAction::Ignore),
        transition(state, event).1 is Ignore <==> transition(state, event).0 == state,
{
}

/// Whatever happens to a task, it never returns to an earlier phase; a
/// stopped task stays stopped.
pub proof fn lemma_run_moves_forward(state: InstanceState, events: Seq<InstanceEvent>)
    ensures
        progress(state) <= progress(after(state, events)),
        state is Stopped ==> after(state, events) is Stopped,
    decreases events.len(),
{
    if events.len() > 0 {
        lemma_step_moves_forward(state, events[0]);
        lemma_run_moves_forward(transition(state, events[0]).0, events.drop_first());
    }
}

/// Entries and exits of the registry are bracketed: a task is asked to
/// register exactly when it goes from binding to serving; it is asked to
/// unregister exactly when it stops after having registered; and a failed
/// bind ends the task without the registry being touched.
pub proof fn lemma_registration_is_bracketed(state: InstanceState, event: InstanceEvent)
    ensures
        transition(state, event).1 is Register <==> !holds_entry(state) && holds_entry(
            transition(state, event).0,
        ),
        transition(state, event).1 is Register <==> state is Binding && transition(state, event).0 is Serving,
        transition(state, event).1 is Unregister <==> holds_entry(state) && !holds_entry(
            transition(state, event).0,
        ),
        transition(state, event).1 is Abort <==> state is Binding && event is BindFailed,
        transition(state, event).1 is Abort ==> transition(state, event).0 is Stopped,
{
}

} // verus!
