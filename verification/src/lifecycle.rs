//! The states of the process-wide telemetry and the events that move it from
//! one to the next.

use vstd::prelude::*;

verus! {

/// Where the process-wide telemetry stands.
#[derive(Clone, Copy, Debug, PartialEq, Eq, Structural)]
pub enum LifecycleState {
    Uninitialized,
    Initializing,
    Running,
    ShuttingDown,
    Shutdown,
}

/// What can happen to the telemetry.
#[derive(Clone, Copy, Debug, PartialEq, Eq, Structural)]
pub enum LifecycleEvent {
    /// The process starts bringing the telemetry up.
    Start,
    /// Provider and logging pipeline are installed.
    Installed,
    /// Installation failed; startup is aborted.
    InstallFailed,
    /// The process asks for the flush before exit.
    Stop,
    /// The provider flushed and closed.
    Flushed,
    /// The flush failed or timed out; the process exits all the same.
    FlushFailed,
}

/// The state that `event` leads to from `state`, or `None` where the event is
/// out of order.
pub open spec fn transition(state: LifecycleState, event: LifecycleEvent) -> Option<
    LifecycleState,
> {
    match (state, event) {
        (LifecycleState::Uninitialized, LifecycleEvent::Start) => Some(
            LifecycleState::Initializing,
        ),
        (LifecycleState::Initializing, LifecycleEvent::Installed) => Some(LifecycleState::Running),
        (LifecycleState::Initializing, LifecycleEvent::InstallFailed) => Some(
            LifecycleState::Shutdown,
        ),
        (LifecycleState::Running, LifecycleEvent::Stop) => Some(LifecycleState::ShuttingDown),
        (LifecycleState::ShuttingDown, LifecycleEvent::Flushed) => Some(LifecycleState::Shutdown),
        (LifecycleState::ShuttingDown, LifecycleEvent::FlushFailed) => Some(
            LifecycleState::Shutdown,
        ),
        _ => None,
    }
}

/// The position of a state in the order in which the states are passed.
pub open spec fn rank(state: LifecycleState) -> nat {
    match state {
        LifecycleState::Uninitialized => 0,
        LifecycleState::Initializing => 1,
        LifecycleState::Running => 2,
        LifecycleState::ShuttingDown => 3,
        LifecycleState::Shutdown => 4,
    }
}

/// The state reached from `state` by `events` in order, or `None` if one of
/// them is out of order.
pub open spec fn run(state: LifecycleState, events: Seq<LifecycleEvent>) -> Option<LifecycleState>
    decreases events.len(),
{
    if events.len() == 0 {
        Some(state)
    } else {
        match transition(state, events[0]) {
            Some(next) => run(next, events.skip(1)),
            None => None,
        }
    }
}

impl LifecycleState {
    /// Applies `event`: the next state, or `None` where the event is out of
    /// order and the state stays as it is.
    pub fn advance(self, event: LifecycleEvent) -> (r: Option<LifecycleState>)
        ensures
            r == transition(self, event),
    {
        match self {
            LifecycleState::Uninitialized => match event {
                LifecycleEvent::Start => Some(LifecycleState::Initializing),
                _ => None,
            },
            LifecycleState::Initializing => match event {
                LifecycleEvent::Installed => Some(LifecycleState::Running),
                LifecycleEvent::InstallFailed => Some(LifecycleState::Shutdown),
                _ => None,
            },
            LifecycleState::Running => match event {
                LifecycleEvent::Stop => Some(LifecycleState::ShuttingDown),
                _ => None,
            },
            LifecycleState::ShuttingDown => match event {
                LifecycleEvent::Flushed => Some(LifecycleState::Shutdown),
                LifecycleEvent::FlushFailed => Some(LifecycleState::Shutdown),
                _ => None,
            },
            LifecycleState::Shutdown => None,
        }
    }

    /// Whether spans and correlated logs may be produced in this state.
    pub fn is_running(self) -> (r: bool)
        ensures
            r == (self == LifecycleState::Running),
    {
        match self {
            LifecycleState::Running => true,
            _ => false,
        }
    }
}

/// Every accepted event moves the lifecycle strictly forward. So no state is
/// entered twice: the telemetry starts once, is shut down once, and accepts
/// nothing after `Shutdown`.
pub proof fn lemma_transition_moves_forward(state: LifecycleState, event: LifecycleEvent)
    ensures
        transition(state, event) matches Some(next) ==> rank(next) > rank(state),
        state == LifecycleState::Shutdown ==> transition(state, event) is None,
        event == LifecycleEvent::Start ==> (transition(state, event) is Some <==> state
            == LifecycleState::Uninitialized),
{
}

/// A sequence of events that is accepted from `state` ends in a state that is
/// as far on as the sequence is long.
pub proof fn lemma_run_moves_forward(state: LifecycleState, events: Seq<LifecycleEvent>)
    ensures
        run(state, events) matches Some(last) ==> rank(last) >= rank(state) + events.len(),
    decreases events.len(),
{
    if events.len() > 0 {
        match transition(state, events[0]) {
            Some(next) => {
                lemma_run_moves_forward(next, events.skip(1));
            },
            None => {},
        }
    }
}

/// The telemetry runs only after exactly `Start` and `Installed`.
pub proof fn lemma_running_only_after_init(events: Seq<LifecycleEvent>)
    requires
        run(LifecycleState::Uninitialized, events) == Some(LifecycleState::Running),
    ensures
        events == seq![LifecycleEvent::Start, LifecycleEvent::Installed],
{
    lemma_run_moves_forward(LifecycleState::Uninitialized, events);
    assert(events.len() >= 1);
    assert(transition(LifecycleState::Uninitialized, events[0]) is Some);
    let rest = events.skip(1);
    assert(run(LifecycleState::Initializing, rest) == Some(LifecycleState::Running));
    assert(rest.len() >= 1);
    let next = transition(LifecycleState::Initializing, rest[0]);
    assert(next is Some);
    assert(run(next.unwrap(), rest.skip(1)) == Some(LifecycleState::Running));
    assert(rest.skip(1).len() == 0);
    assert(events[1] == rest[0]);
    assert(events =~= seq![LifecycleEvent::Start, LifecycleEvent::Installed]);
}

} // verus!
