//! The lifecycle of the backend process, as seen by the application that
//! spawns it. The application performs each action and reports each event;
//! the decisions are made here.

use vstd::prelude::*;

verus! {

/// The name under which the backend executable is bundled.
pub const BACKEND_NAME: &'static str = "cyclemetry-server";

#[derive(Clone, Copy, Debug, PartialEq, Eq, Structural)]
pub enum BackendState {
    NotStarted,
    Spawning,
    Running,
    /// Terminal: the process could not be started.
    SpawnFailed,
    /// The process ran and has gone.
    Exited,
}

#[derive(Clone, Debug)]
pub enum LifecycleEvent {
    /// The application is being set up.
    Setup,
    /// The process was created.
    Spawned,
    /// The command that starts the process could not be prepared.
    CommandError(String),
    /// The process could not be created, for the reason given.
    SpawnError(String),
    /// The running process ended.
    Terminated,
}

#[derive(Clone, Debug)]
pub enum LifecycleAction {
    /// Start the backend process.
    Spawn,
    LogInfo(String),
    LogError(String),
    Nothing,
}

/// The state after `event` in state `state`; events that do not apply leave
/// the state as it was.
pub open spec fn next_state(state: BackendState, event: LifecycleEvent) -> BackendState {
    match (state, event) {
        (BackendState::NotStarted, LifecycleEvent::Setup) => BackendState::Spawning,
        (BackendState::Spawning, LifecycleEvent::Spawned) => BackendState::Running,
        (BackendState::Spawning, LifecycleEvent::CommandError(_)) => BackendState::SpawnFailed,
        (BackendState::Spawning, LifecycleEvent::SpawnError(_)) => BackendState::SpawnFailed,
        (BackendState::Running, LifecycleEvent::Terminated) => BackendState::Exited,
        _ => state,
    }
}

/// The action that goes with `event` in state `state`.
pub open spec fn step_action(state: BackendState, event: LifecycleEvent, action: LifecycleAction) -> bool {
    match (state, event) {
        (BackendState::NotStarted, LifecycleEvent::Setup) => action is Spawn,
        (BackendState::Spawning, LifecycleEvent::Spawned) => action matches LifecycleAction::LogInfo(m)
            && m@ == "Successfully spawned sidecar: "@ + BACKEND_NAME@,
        (BackendState::Spawning, LifecycleEvent::CommandError(cause)) => action matches LifecycleAction::LogError(m)
            && m@ == "Failed to initialize sidecar command: "@ + cause@,
        (BackendState::Spawning, LifecycleEvent::SpawnError(cause)) => action matches LifecycleAction::LogError(m)
            && m@ == "Failed to spawn sidecar: "@ + cause@,
        (BackendState::Running, LifecycleEvent::Terminated) => action matches LifecycleAction::LogInfo(m)
            && m@ == "Sidecar exited: "@ + BACKEND_NAME@,
        _ => action is Nothing,
    }
}

fn with_suffix(prefix: &str, suffix: &str) -> (r: String)
    ensures
        r@ == prefix@ + suffix@,
{
    let mut r = String::from_str(prefix);
    r.append(suffix);
    r
}

impl BackendState {
    /// Takes one event: the next state and what the application must do.
    pub fn step(self, event: LifecycleEvent) -> (r: (BackendState, LifecycleAction))
        ensures
            r.0 == next_state(self, event),
            step_action(self, event, r.1),
    {
        match (self, event) {
            (BackendState::NotStarted, LifecycleEvent::Setup) => (
                BackendState::Spawning,
                LifecycleAction::Spawn,
            ),
            (BackendState::Spawning, LifecycleEvent::Spawned) => (
                BackendState::Running,
                LifecycleAction::LogInfo(with_suffix("Successfully spawned sidecar: ", BACKEND_NAME)),
            ),
            (BackendState::Spawning, LifecycleEvent::CommandError(cause)) => (
                BackendState::SpawnFailed,
                LifecycleAction::LogError(
                    with_suffix("Failed to initialize sidecar command: ", cause.as_str()),
                ),
            ),
            (BackendState::Spawning, LifecycleEvent::SpawnError(cause)) => (
                BackendState::SpawnFailed,
                LifecycleAction::LogError(with_suffix("Failed to spawn sidecar: ", cause.as_str())),
            ),
            (BackendState::Running, LifecycleEvent::Terminated) => (
                BackendState::Exited,
                LifecycleAction::LogInfo(with_suffix("Sidecar exited: ", BACKEND_NAME)),
            ),
            (state, _) => (state, LifecycleAction::Nothing),
        }
    }

    /// Whether the state is final: nothing moves it any more.
    pub fn is_terminal(&self) -> (r: bool)
        ensures
            r <==> (*self == BackendState::SpawnFailed || *self == BackendState::Exited),
    {
        match self {
            BackendState::SpawnFailed | BackendState::Exited => true,
            _ => false,
        }
    }
}

} // verus!

verus! {

/// A failed start is final: no event moves the backend out of it.
pub proof fn lemma_spawn_failure_is_final(event: LifecycleEvent)
    ensures
        next_state(BackendState::SpawnFailed, event) == BackendState::SpawnFailed,
        step_action(BackendState::SpawnFailed, event, LifecycleAction::Nothing),
{
}

} // verus!
